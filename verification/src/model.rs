//! The provisioning state machine as mathematics: its states, and the
//! transition that each reply causes.

use vstd::prelude::*;
use crate::error::ProvisionErrorView;
use crate::layout::{expected_path, ServerMode, PACKAGE_NAME};
use crate::protocol::{ReplyView, RequestView, Status, StepView};

verus! {

/// Which reply the provisioner is waiting for, and what it has learnt so far
/// in the resolution under way.
pub enum PhaseView {
    /// No resolution is under way.
    Idle,
    /// Waiting for the first probe of the expected script.
    Probing { mode: ServerMode },
    /// Waiting for the latest published version; `present` is what the first
    /// probe reported.
    QueryingLatest { mode: ServerMode, present: bool },
    /// The script is present and `latest` is published; waiting for the
    /// installed version.
    QueryingInstalled { mode: ServerMode, latest: Seq<char> },
    /// Waiting for the install to end.
    Installing { mode: ServerMode },
    /// The install ended with `install`; waiting for the probe that follows it.
    Confirming { mode: ServerMode, install: Result<(), Seq<char>> },
}

/// The mathematical state of a provisioner.
pub struct ProvisionerView {
    /// True once a resolution has succeeded.
    pub resolved: bool,
    /// The reply that is awaited.
    pub phase: PhaseView,
}

/// The state of a provisioner that has just been made.
pub open spec fn initial() -> ProvisionerView {
    ProvisionerView { resolved: false, phase: PhaseView::Idle }
}

/// Whether `reply` is the kind of answer that `phase` waits for.
pub open spec fn answers(phase: PhaseView, reply: ReplyView) -> bool {
    match phase {
        PhaseView::Idle => false,
        PhaseView::Probing { .. } => reply is FileProbed,
        PhaseView::QueryingLatest { .. } => reply is LatestVersion,
        PhaseView::QueryingInstalled { .. } => reply is InstalledVersion,
        PhaseView::Installing { .. } => reply is InstallFinished,
        PhaseView::Confirming { .. } => reply is FileProbed,
    }
}

/// The step that probes the script that `mode` expects.
pub open spec fn probe_step(mode: ServerMode) -> StepView {
    StepView::Perform { notice: None, request: RequestView::ProbeFile { path: expected_path(mode) } }
}

/// The step that announces the update check and asks for the latest version.
pub open spec fn update_step() -> StepView {
    StepView::Perform {
        notice: Some(Status::CheckingForUpdate),
        request: RequestView::LatestVersion { package: PACKAGE_NAME@ },
    }
}

/// The step that asks which version is installed.
pub open spec fn installed_step() -> StepView {
    StepView::Perform {
        notice: None,
        request: RequestView::InstalledVersion { package: PACKAGE_NAME@ },
    }
}

/// The step that announces a download and asks for `version` to be installed.
pub open spec fn install_step(version: Seq<char>) -> StepView {
    StepView::Perform {
        notice: Some(Status::Downloading),
        request: RequestView::Install { package: PACKAGE_NAME@, version },
    }
}

/// The step that hands out the expected path of `mode`.
pub open spec fn found_step(mode: ServerMode) -> StepView {
    StepView::Finish { result: Ok(expected_path(mode)) }
}

/// The step that ends a resolution with `error`.
pub open spec fn failed_step(error: ProvisionErrorView) -> StepView {
    StepView::Finish { result: Err(error) }
}

/// The state that waits in `phase`.
pub open spec fn waiting(resolved: bool, phase: PhaseView) -> ProvisionerView {
    ProvisionerView { resolved, phase }
}

/// The state between resolutions.
pub open spec fn idle(resolved: bool) -> ProvisionerView {
    ProvisionerView { resolved, phase: PhaseView::Idle }
}

/// Whether the package has to be installed: always when the script is
/// missing, otherwise when the installed version is not the latest one. No
/// recorded version counts as a different one. Versions are only ever compared
/// for equality.
pub open spec fn needs_install(present: bool, installed: Option<Seq<char>>, latest: Seq<char>) -> bool {
    !present || installed != Some(latest)
}

/// Starting a resolution for `mode`: whatever was under way is dropped, and the
/// expected script is probed first.
pub open spec fn begin(state: ProvisionerView, mode: ServerMode) -> (ProvisionerView, StepView) {
    (waiting(state.resolved, PhaseView::Probing { mode }), probe_step(mode))
}

/// After the first probe: a provisioner that has resolved before and finds the
/// script in place is done, without a word to the registry. Otherwise the
/// update check is announced and the latest version asked for.
pub open spec fn after_first_probe(resolved: bool, mode: ServerMode, present: bool) -> (
    ProvisionerView,
    StepView,
) {
    if resolved && present {
        (idle(resolved), found_step(mode))
    } else {
        (waiting(resolved, PhaseView::QueryingLatest { mode, present }), update_step())
    }
}

/// After the latest-version query: a failure ends the resolution, whether or
/// not a script is present. With the script missing the latest version is
/// installed at once; with the script present the installed version is asked
/// for first.
pub open spec fn after_latest(
    resolved: bool,
    mode: ServerMode,
    present: bool,
    latest: Result<Seq<char>, Seq<char>>,
) -> (ProvisionerView, StepView) {
    match latest {
        Err(cause) => (
            idle(resolved),
            failed_step(ProvisionErrorView::RegistryUnavailable { cause }),
        ),
        Ok(version) => if present {
            (
                waiting(resolved, PhaseView::QueryingInstalled { mode, latest: version }),
                installed_step(),
            )
        } else {
            (waiting(resolved, PhaseView::Installing { mode }), install_step(version))
        },
    }
}

/// After the installed-version query, which is only made with the script
/// present: a failure ends the resolution; the latest version being installed
/// already is success; any other answer leads to an install.
pub open spec fn after_installed(
    resolved: bool,
    mode: ServerMode,
    latest: Seq<char>,
    installed: Result<Option<Seq<char>>, Seq<char>>,
) -> (ProvisionerView, StepView) {
    match installed {
        Err(cause) => (
            idle(resolved),
            failed_step(ProvisionErrorView::RegistryUnavailable { cause }),
        ),
        Ok(version) => if needs_install(true, version, latest) {
            (waiting(resolved, PhaseView::Installing { mode }), install_step(latest))
        } else {
            (idle(true), found_step(mode))
        },
    }
}

/// After the install: however it ended, the script is probed again.
pub open spec fn after_install(resolved: bool, mode: ServerMode, outcome: Result<(), Seq<char>>) -> (
    ProvisionerView,
    StepView,
) {
    (waiting(resolved, PhaseView::Confirming { mode, install: outcome }), probe_step(mode))
}

/// After the probe that follows an install: a script in place wins, even over
/// a failed install. With no script, a failed install is reported with its
/// cause, and a successful one as a package that lacks the expected path.
pub open spec fn after_second_probe(
    resolved: bool,
    mode: ServerMode,
    install: Result<(), Seq<char>>,
    present: bool,
) -> (ProvisionerView, StepView) {
    if present {
        (idle(true), found_step(mode))
    } else {
        (
            idle(resolved),
            failed_step(
                match install {
                    Ok(_) => ProvisionErrorView::LayoutMismatch {
                        package: PACKAGE_NAME@,
                        path: expected_path(mode),
                    },
                    Err(cause) => ProvisionErrorView::InstallFailed { cause },
                },
            ),
        )
    }
}

/// The transition that `reply` causes in `state`: the next state and the step
/// handed to the caller. There is none where the reply is not the kind of
/// answer that the state waits for.
pub open spec fn react(state: ProvisionerView, reply: ReplyView) -> Option<
    (ProvisionerView, StepView),
> {
    match (state.phase, reply) {
        (PhaseView::Probing { mode }, ReplyView::FileProbed { present }) => Some(
            after_first_probe(state.resolved, mode, present),
        ),
        (PhaseView::QueryingLatest { mode, present }, ReplyView::LatestVersion { latest }) => Some(
            after_latest(state.resolved, mode, present, latest),
        ),
        (
            PhaseView::QueryingInstalled { mode, latest },
            ReplyView::InstalledVersion { installed },
        ) => Some(after_installed(state.resolved, mode, latest, installed)),
        (PhaseView::Installing { mode }, ReplyView::InstallFinished { outcome }) => Some(
            after_install(state.resolved, mode, outcome),
        ),
        (PhaseView::Confirming { mode, install }, ReplyView::FileProbed { present }) => Some(
            after_second_probe(state.resolved, mode, install, present),
        ),
        _ => None,
    }
}

} // verus!
