use stimulus_provisioner::error::ProvisionError;
use stimulus_provisioner::layout::{ServerMode, LSP_SERVER_PATH, MCP_SERVER_PATH, PACKAGE_NAME};
use stimulus_provisioner::protocol::{Reply, Request, Status, Step};
use stimulus_provisioner::provisioner::Provisioner;

/// Collaborators made of plain data: a disk that holds or lacks the two
/// scripts, and a registry with fixed answers.
struct Fake {
    files: Vec<String>,
    latest: Result<String, String>,
    installed: Result<Option<String>, String>,
    install: Result<(), String>,
    install_creates: Vec<String>,
    registry_forbidden: bool,
    log: Vec<String>,
}

impl Fake {
    fn new() -> Fake {
        Fake {
            files: Vec::new(),
            latest: Ok("1.2.0".to_string()),
            installed: Ok(None),
            install: Ok(()),
            install_creates: vec![LSP_SERVER_PATH.to_string(), MCP_SERVER_PATH.to_string()],
            registry_forbidden: false,
            log: Vec::new(),
        }
    }

    fn with_files(mut self) -> Fake {
        self.files = vec![LSP_SERVER_PATH.to_string(), MCP_SERVER_PATH.to_string()];
        self
    }

    fn notify(&mut self, status: Status) {
        self.log.push(match status {
            Status::CheckingForUpdate => "notice checking".to_string(),
            Status::Downloading => "notice downloading".to_string(),
        });
    }

    fn perform(&mut self, request: Request) -> Reply {
        if self.registry_forbidden {
            assert!(
                matches!(request, Request::ProbeFile { .. }),
                "the registry was called: {:?}",
                request
            );
        }
        match request {
            Request::ProbeFile { path } => {
                self.log.push(format!("probe {}", path));
                Reply::FileProbed { present: self.files.contains(&path) }
            }
            Request::LatestVersion { package } => {
                self.log.push(format!("latest {}", package));
                Reply::LatestVersion { latest: self.latest.clone() }
            }
            Request::InstalledVersion { package } => {
                self.log.push(format!("installed {}", package));
                Reply::InstalledVersion { installed: self.installed.clone() }
            }
            Request::Install { package, version } => {
                self.log.push(format!("install {} {}", package, version));
                if self.install.is_ok() {
                    let created = self.install_creates.clone();
                    self.files.extend(created);
                    self.installed = Ok(Some(version));
                }
                Reply::InstallFinished { outcome: self.install.clone() }
            }
        }
    }
}

/// Runs one resolution to its end against `fake`.
fn resolve(
    provisioner: &mut Provisioner,
    mode: ServerMode,
    fake: &mut Fake,
) -> Result<String, ProvisionError> {
    let mut step = provisioner.begin(mode);
    for _ in 0..6 {
        match step {
            Step::Finish { result } => return result,
            Step::Perform { notice, request } => {
                if let Some(status) = notice {
                    fake.notify(status);
                }
                let reply = fake.perform(request);
                step = provisioner.advance(reply).expect("the reply answers the request");
            }
        }
    }
    panic!("the resolution did not end within five replies");
}

fn resolved_provisioner() -> Provisioner {
    let mut provisioner = Provisioner::new();
    let mut fake = Fake::new();
    assert_eq!(
        resolve(&mut provisioner, ServerMode::Lsp, &mut fake),
        Ok(LSP_SERVER_PATH.to_string())
    );
    assert!(provisioner.is_resolved());
    provisioner
}

#[test]
fn test_new_extension_initial_state() {
    let ext = Provisioner::new();
    assert!(
        !ext.is_resolved(),
        "A new extension instance should have did_find_server as false by default."
    );
}

#[test]
fn begin_probes_the_expected_script() {
    let mut provisioner = Provisioner::new();
    assert_eq!(
        provisioner.begin(ServerMode::Lsp),
        Step::Perform {
            notice: None,
            request: Request::ProbeFile {
                path: "node_modules/stimulus-language-server/out/server.js".to_string()
            },
        }
    );
    assert_eq!(
        provisioner.begin(ServerMode::ContextServer),
        Step::Perform {
            notice: None,
            request: Request::ProbeFile {
                path: "node_modules/stimulus-language-server/out/mcp-server/server.js".to_string()
            },
        }
    );
}

#[test]
fn fast_path_makes_no_registry_call() {
    let mut provisioner = resolved_provisioner();
    let mut fake = Fake::new().with_files();
    fake.registry_forbidden = true;
    assert_eq!(
        resolve(&mut provisioner, ServerMode::Lsp, &mut fake),
        Ok(LSP_SERVER_PATH.to_string())
    );
    assert_eq!(fake.log, vec![format!("probe {}", LSP_SERVER_PATH)]);
    assert!(provisioner.is_resolved());
}

#[test]
fn fast_path_answers_in_one_step() {
    let mut provisioner = resolved_provisioner();
    provisioner.begin(ServerMode::Lsp);
    assert_eq!(
        provisioner.advance(Reply::FileProbed { present: true }),
        Some(Step::Finish { result: Ok(LSP_SERVER_PATH.to_string()) })
    );
}

#[test]
fn unresolved_provisioner_checks_even_with_script_present() {
    let mut provisioner = Provisioner::new();
    provisioner.begin(ServerMode::Lsp);
    assert_eq!(
        provisioner.advance(Reply::FileProbed { present: true }),
        Some(Step::Perform {
            notice: Some(Status::CheckingForUpdate),
            request: Request::LatestVersion { package: "stimulus-language-server".to_string() },
        })
    );
}

#[test]
fn vanished_script_sends_a_resolved_provisioner_back_to_the_registry() {
    let mut provisioner = resolved_provisioner();
    let mut fake = Fake::new();
    assert_eq!(
        resolve(&mut provisioner, ServerMode::Lsp, &mut fake),
        Ok(LSP_SERVER_PATH.to_string())
    );
    assert_eq!(
        fake.log,
        vec![
            format!("probe {}", LSP_SERVER_PATH),
            "notice checking".to_string(),
            "latest stimulus-language-server".to_string(),
            "notice downloading".to_string(),
            "install stimulus-language-server 1.2.0".to_string(),
            format!("probe {}", LSP_SERVER_PATH),
        ]
    );
}

#[test]
fn missing_script_installs_the_latest_version() {
    let mut provisioner = Provisioner::new();
    let mut fake = Fake::new();
    fake.latest = Ok("3.1.4".to_string());
    assert_eq!(
        resolve(&mut provisioner, ServerMode::Lsp, &mut fake),
        Ok(LSP_SERVER_PATH.to_string())
    );
    assert!(fake.log.contains(&"install stimulus-language-server 3.1.4".to_string()));
    assert!(!fake.log.contains(&"installed stimulus-language-server".to_string()));
    assert!(provisioner.is_resolved());
}

#[test]
fn install_request_carries_the_version_that_the_registry_reported() {
    let mut provisioner = Provisioner::new();
    provisioner.begin(ServerMode::Lsp);
    provisioner.advance(Reply::FileProbed { present: false });
    assert_eq!(
        provisioner.advance(Reply::LatestVersion { latest: Ok("9.9.9".to_string()) }),
        Some(Step::Perform {
            notice: Some(Status::Downloading),
            request: Request::Install {
                package: PACKAGE_NAME.to_string(),
                version: "9.9.9".to_string(),
            },
        })
    );
    assert_eq!(
        provisioner.advance(Reply::InstallFinished { outcome: Ok(()) }),
        Some(Step::Perform {
            notice: None,
            request: Request::ProbeFile { path: LSP_SERVER_PATH.to_string() },
        })
    );
    assert_eq!(
        provisioner.advance(Reply::FileProbed { present: true }),
        Some(Step::Finish { result: Ok(LSP_SERVER_PATH.to_string()) })
    );
    assert!(provisioner.is_resolved());
}

#[test]
fn failed_install_without_script_reports_its_cause() {
    let mut provisioner = Provisioner::new();
    let mut fake = Fake::new();
    fake.install = Err("npm exited with code 1".to_string());
    let result = resolve(&mut provisioner, ServerMode::Lsp, &mut fake);
    assert_eq!(
        result,
        Err(ProvisionError::InstallFailed { cause: "npm exited with code 1".to_string() })
    );
    assert_eq!(result.unwrap_err().message(), "npm exited with code 1");
    assert!(!provisioner.is_resolved());
}

#[test]
fn failed_install_with_script_in_place_succeeds() {
    let mut provisioner = Provisioner::new();
    let mut fake = Fake::new().with_files();
    fake.installed = Ok(Some("1.1.0".to_string()));
    fake.install = Err("network down".to_string());
    assert_eq!(
        resolve(&mut provisioner, ServerMode::Lsp, &mut fake),
        Ok(LSP_SERVER_PATH.to_string())
    );
    assert!(fake.log.contains(&"install stimulus-language-server 1.2.0".to_string()));
    assert!(provisioner.is_resolved());
}

#[test]
fn successful_install_without_script_is_a_layout_mismatch() {
    let mut provisioner = Provisioner::new();
    let mut fake = Fake::new();
    fake.install_creates = Vec::new();
    let result = resolve(&mut provisioner, ServerMode::Lsp, &mut fake);
    assert_eq!(
        result,
        Err(ProvisionError::LayoutMismatch {
            package: "stimulus-language-server".to_string(),
            path: "node_modules/stimulus-language-server/out/server.js".to_string(),
        })
    );
    assert_eq!(
        result.unwrap_err().message(),
        "installed package 'stimulus-language-server' did not contain expected path 'node_modules/stimulus-language-server/out/server.js'"
    );
    assert!(!provisioner.is_resolved());
}

#[test]
fn layout_mismatch_names_the_path_of_the_mode() {
    let mut provisioner = Provisioner::new();
    let mut fake = Fake::new();
    fake.install_creates = vec![LSP_SERVER_PATH.to_string()];
    assert_eq!(
        resolve(&mut provisioner, ServerMode::ContextServer, &mut fake),
        Err(ProvisionError::LayoutMismatch {
            package: PACKAGE_NAME.to_string(),
            path: MCP_SERVER_PATH.to_string(),
        })
    );
}

#[test]
fn failed_version_query_without_script_is_registry_unavailable() {
    let mut provisioner = Provisioner::new();
    let mut fake = Fake::new();
    fake.latest = Err("registry unreachable".to_string());
    let result = resolve(&mut provisioner, ServerMode::Lsp, &mut fake);
    assert_eq!(
        result,
        Err(ProvisionError::RegistryUnavailable { cause: "registry unreachable".to_string() })
    );
    assert_eq!(result.unwrap_err().message(), "registry unreachable");
    assert!(!provisioner.is_resolved());
    assert_eq!(
        fake.log,
        vec![
            format!("probe {}", LSP_SERVER_PATH),
            "notice checking".to_string(),
            "latest stimulus-language-server".to_string(),
        ]
    );
}

#[test]
fn failed_version_query_with_script_present_still_fails() {
    let mut provisioner = Provisioner::new();
    let mut fake = Fake::new().with_files();
    fake.latest = Err("timeout".to_string());
    assert_eq!(
        resolve(&mut provisioner, ServerMode::Lsp, &mut fake),
        Err(ProvisionError::RegistryUnavailable { cause: "timeout".to_string() })
    );
    assert!(!provisioner.is_resolved());
}

#[test]
fn failure_leaves_a_resolved_provisioner_resolved() {
    let mut provisioner = resolved_provisioner();
    let mut fake = Fake::new();
    fake.latest = Err("timeout".to_string());
    assert_eq!(
        resolve(&mut provisioner, ServerMode::Lsp, &mut fake),
        Err(ProvisionError::RegistryUnavailable { cause: "timeout".to_string() })
    );
    assert!(provisioner.is_resolved());
}

#[test]
fn failed_installed_version_query_is_registry_unavailable() {
    let mut provisioner = Provisioner::new();
    let mut fake = Fake::new().with_files();
    fake.installed = Err("cannot read package.json".to_string());
    assert_eq!(
        resolve(&mut provisioner, ServerMode::Lsp, &mut fake),
        Err(ProvisionError::RegistryUnavailable { cause: "cannot read package.json".to_string() })
    );
    assert!(!fake.log.iter().any(|entry| entry.starts_with("install ")));
    assert!(!provisioner.is_resolved());
}

#[test]
fn current_install_is_kept() {
    let mut provisioner = Provisioner::new();
    let mut fake = Fake::new().with_files();
    fake.installed = Ok(Some("1.2.0".to_string()));
    assert_eq!(
        resolve(&mut provisioner, ServerMode::Lsp, &mut fake),
        Ok(LSP_SERVER_PATH.to_string())
    );
    assert_eq!(
        fake.log,
        vec![
            format!("probe {}", LSP_SERVER_PATH),
            "notice checking".to_string(),
            "latest stimulus-language-server".to_string(),
            "installed stimulus-language-server".to_string(),
        ]
    );
    assert!(provisioner.is_resolved());
}

#[test]
fn stale_install_is_replaced() {
    let mut provisioner = Provisioner::new();
    let mut fake = Fake::new().with_files();
    fake.installed = Ok(Some("1.1.9".to_string()));
    assert_eq!(
        resolve(&mut provisioner, ServerMode::Lsp, &mut fake),
        Ok(LSP_SERVER_PATH.to_string())
    );
    assert_eq!(
        fake.log,
        vec![
            format!("probe {}", LSP_SERVER_PATH),
            "notice checking".to_string(),
            "latest stimulus-language-server".to_string(),
            "installed stimulus-language-server".to_string(),
            "notice downloading".to_string(),
            "install stimulus-language-server 1.2.0".to_string(),
            format!("probe {}", LSP_SERVER_PATH),
        ]
    );
}

#[test]
fn unrecorded_install_is_replaced() {
    let mut provisioner = Provisioner::new();
    let mut fake = Fake::new().with_files();
    fake.installed = Ok(None);
    assert_eq!(
        resolve(&mut provisioner, ServerMode::Lsp, &mut fake),
        Ok(LSP_SERVER_PATH.to_string())
    );
    assert!(fake.log.contains(&"install stimulus-language-server 1.2.0".to_string()));
}

#[test]
fn versions_are_compared_for_equality_only() {
    let mut provisioner = Provisioner::new();
    let mut fake = Fake::new().with_files();
    fake.latest = Ok("1.2.0".to_string());
    fake.installed = Ok(Some("2.0.0".to_string()));
    assert_eq!(
        resolve(&mut provisioner, ServerMode::Lsp, &mut fake),
        Ok(LSP_SERVER_PATH.to_string())
    );
    assert!(fake.log.contains(&"install stimulus-language-server 1.2.0".to_string()));
}

#[test]
fn second_resolution_reuses_the_first() {
    let mut provisioner = Provisioner::new();
    let mut fake = Fake::new();
    let first = resolve(&mut provisioner, ServerMode::Lsp, &mut fake);
    let second = resolve(&mut provisioner, ServerMode::Lsp, &mut fake);
    assert_eq!(first, Ok(LSP_SERVER_PATH.to_string()));
    assert_eq!(second, first);
    let queries = fake.log.iter().filter(|entry| entry.starts_with("latest ")).count();
    assert_eq!(queries, 1);
    assert_eq!(fake.log.last(), Some(&format!("probe {}", LSP_SERVER_PATH)));
    assert_eq!(fake.log.len(), 7);
    assert!(provisioner.is_resolved());
}

#[test]
fn context_server_mode_resolves_its_own_script() {
    let mut provisioner = Provisioner::new();
    let mut fake = Fake::new();
    assert_eq!(
        resolve(&mut provisioner, ServerMode::ContextServer, &mut fake),
        Ok("node_modules/stimulus-language-server/out/mcp-server/server.js".to_string())
    );
    assert_eq!(fake.log.first(), Some(&format!("probe {}", MCP_SERVER_PATH)));
    assert!(provisioner.is_resolved());
}

#[test]
fn the_flag_is_shared_between_the_modes() {
    let mut provisioner = resolved_provisioner();
    let mut fake = Fake::new().with_files();
    fake.registry_forbidden = true;
    assert_eq!(
        resolve(&mut provisioner, ServerMode::ContextServer, &mut fake),
        Ok(MCP_SERVER_PATH.to_string())
    );
}

#[test]
fn notices_come_before_the_requests_they_announce() {
    let mut provisioner = Provisioner::new();
    let mut fake = Fake::new();
    fake.install = Err("disk full".to_string());
    let result = resolve(&mut provisioner, ServerMode::Lsp, &mut fake);
    assert!(result.is_err());
    let checking = fake.log.iter().position(|entry| entry == "notice checking").unwrap();
    let latest = fake.log.iter().position(|entry| entry.starts_with("latest ")).unwrap();
    let downloading = fake.log.iter().position(|entry| entry == "notice downloading").unwrap();
    let install = fake.log.iter().position(|entry| entry.starts_with("install ")).unwrap();
    assert_eq!(checking + 1, latest);
    assert_eq!(downloading + 1, install);
}

#[test]
fn reply_of_the_wrong_kind_is_refused() {
    let mut provisioner = Provisioner::new();
    provisioner.begin(ServerMode::Lsp);
    assert_eq!(provisioner.advance(Reply::InstallFinished { outcome: Ok(()) }), None);
    assert_eq!(
        provisioner.advance(Reply::LatestVersion { latest: Ok("1.0.0".to_string()) }),
        None
    );
    assert_eq!(provisioner.advance(Reply::InstalledVersion { installed: Ok(None) }), None);
    assert_eq!(
        provisioner.advance(Reply::FileProbed { present: false }),
        Some(Step::Perform {
            notice: Some(Status::CheckingForUpdate),
            request: Request::LatestVersion { package: PACKAGE_NAME.to_string() },
        })
    );
    assert_eq!(provisioner.advance(Reply::FileProbed { present: true }), None);
    assert!(!provisioner.is_resolved());
}

#[test]
fn reply_without_a_resolution_under_way_is_refused() {
    let mut provisioner = Provisioner::new();
    assert_eq!(provisioner.advance(Reply::FileProbed { present: true }), None);
    assert!(!provisioner.is_resolved());
    let mut provisioner = resolved_provisioner();
    assert_eq!(provisioner.advance(Reply::FileProbed { present: true }), None);
    assert_eq!(provisioner.advance(Reply::InstallFinished { outcome: Ok(()) }), None);
}

#[test]
fn begin_drops_the_resolution_under_way() {
    let mut provisioner = Provisioner::new();
    provisioner.begin(ServerMode::Lsp);
    provisioner.advance(Reply::FileProbed { present: false });
    assert_eq!(
        provisioner.begin(ServerMode::ContextServer),
        Step::Perform {
            notice: None,
            request: Request::ProbeFile { path: MCP_SERVER_PATH.to_string() },
        }
    );
    assert_eq!(
        provisioner.advance(Reply::LatestVersion { latest: Ok("1.0.0".to_string()) }),
        None
    );
}
