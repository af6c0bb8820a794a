//! The provisioner: the state machine in executable form.

use vstd::prelude::*;
use crate::error::ProvisionError;
use crate::layout::{ServerMode, PACKAGE_NAME};
use crate::model::{self, answers, begin, initial, react, PhaseView, ProvisionerView};
use crate::protocol::{install_view, Reply, Request, Status, Step};

verus! {

/// The reply that is awaited, with what the resolution under way has learnt.
#[derive(Debug)]
enum Phase {
    Idle,
    Probing { mode: ServerMode },
    QueryingLatest { mode: ServerMode, present: bool },
    QueryingInstalled { mode: ServerMode, latest: String },
    Installing { mode: ServerMode },
    Confirming { mode: ServerMode, install: Result<(), String> },
}

impl View for Phase {
    type V = PhaseView;

    closed spec fn view(&self) -> PhaseView {
        match self {
            Phase::Idle => PhaseView::Idle,
            Phase::Probing { mode } => PhaseView::Probing { mode: *mode },
            Phase::QueryingLatest { mode, present } => PhaseView::QueryingLatest {
                mode: *mode,
                present: *present,
            },
            Phase::QueryingInstalled { mode, latest } => PhaseView::QueryingInstalled {
                mode: *mode,
                latest: latest@,
            },
            Phase::Installing { mode } => PhaseView::Installing { mode: *mode },
            Phase::Confirming { mode, install } => PhaseView::Confirming {
                mode: *mode,
                install: install_view(*install),
            },
        }
    }
}

/// Keeps the language-server package installed and current.
///
/// A provisioner remembers one thing between resolutions: whether one has
/// succeeded before. That flag is a hint. Every resolution probes the disk
/// again, so a script that was deleted in the meantime is noticed.
///
/// A resolution is a dialogue. [`Provisioner::begin`] hands out the first
/// [`Step`]; the caller performs each request and passes the reply to
/// [`Provisioner::advance`], until a step says [`Step::Finish`].
#[derive(Debug)]
pub struct Provisioner {
    resolved: bool,
    phase: Phase,
}

impl View for Provisioner {
    type V = ProvisionerView;

    closed spec fn view(&self) -> ProvisionerView {
        ProvisionerView { resolved: self.resolved, phase: self.phase@ }
    }
}

/// The step that probes the script that `mode` expects.
fn probe_step(mode: ServerMode) -> (step: Step)
    ensures
        step@ == model::probe_step(mode),
{
    Step::Perform {
        notice: None,
        request: Request::ProbeFile { path: mode.expected_path().to_owned() },
    }
}

/// The step that announces the update check and asks for the latest version.
fn update_step() -> (step: Step)
    ensures
        step@ == model::update_step(),
{
    Step::Perform {
        notice: Some(Status::CheckingForUpdate),
        request: Request::LatestVersion { package: PACKAGE_NAME.to_owned() },
    }
}

/// The step that asks which version is installed.
fn installed_step() -> (step: Step)
    ensures
        step@ == model::installed_step(),
{
    Step::Perform {
        notice: None,
        request: Request::InstalledVersion { package: PACKAGE_NAME.to_owned() },
    }
}

/// The step that announces a download and asks for `version` to be installed.
fn install_step(version: String) -> (step: Step)
    ensures
        step@ == model::install_step(version@),
{
    Step::Perform {
        notice: Some(Status::Downloading),
        request: Request::Install { package: PACKAGE_NAME.to_owned(), version },
    }
}

/// The step that hands out the expected path of `mode`.
fn found_step(mode: ServerMode) -> (step: Step)
    ensures
        step@ == model::found_step(mode),
{
    Step::Finish { result: Ok(mode.expected_path().to_owned()) }
}

/// The step that ends a resolution with `error`.
fn failed_step(error: ProvisionError) -> (step: Step)
    ensures
        step@ == model::failed_step(error@),
{
    Step::Finish { result: Err(error) }
}

impl Provisioner {
    /// A provisioner that has not resolved anything yet.
    pub fn new() -> (provisioner: Self)
        ensures
            provisioner@ == initial(),
            !provisioner@.resolved,
    {
        Provisioner { resolved: false, phase: Phase::Idle }
    }

    /// Whether a resolution has succeeded since this provisioner was made.
    pub fn is_resolved(&self) -> (resolved: bool)
        ensures
            resolved == self@.resolved,
    {
        self.resolved
    }

    /// Starts a resolution for `mode` and hands out its first step, the probe
    /// of the expected script. A resolution that was under way is dropped.
    pub fn begin(&mut self, mode: ServerMode) -> (step: Step)
        ensures
            (final(self)@, step@) == begin(old(self)@, mode),
    {
        self.phase = Phase::Probing { mode };
        probe_step(mode)
    }

    /// Takes the reply to the pending request and hands out the next step.
    ///
    /// Returns `None`, and changes nothing, exactly when `reply` is not the
    /// kind of answer that is awaited; that includes every reply to a
    /// provisioner with no resolution under way.
    pub fn advance(&mut self, reply: Reply) -> (next: Option<Step>)
        ensures
            next is Some <==> answers(old(self)@.phase, reply@),
            match react(old(self)@, reply@) {
                Some((state, step)) => next is Some && next->0@ == step && final(self)@ == state,
                None => next is None && final(self)@ == old(self)@,
            },
    {
        let mut phase = Phase::Idle;
        core::mem::swap(&mut self.phase, &mut phase);
        match (phase, reply) {
            (Phase::Probing { mode }, Reply::FileProbed { present }) => {
                if self.resolved && present {
                    Some(found_step(mode))
                } else {
                    self.phase = Phase::QueryingLatest { mode, present };
                    Some(update_step())
                }
            },
            (Phase::QueryingLatest { mode, present }, Reply::LatestVersion { latest }) => {
                match latest {
                    Err(cause) => Some(failed_step(ProvisionError::RegistryUnavailable { cause })),
                    Ok(version) => {
                        if present {
                            self.phase = Phase::QueryingInstalled { mode, latest: version };
                            Some(installed_step())
                        } else {
                            self.phase = Phase::Installing { mode };
                            Some(install_step(version))
                        }
                    },
                }
            },
            (Phase::QueryingInstalled { mode, latest }, Reply::InstalledVersion { installed }) => {
                match installed {
                    Err(cause) => Some(failed_step(ProvisionError::RegistryUnavailable { cause })),
                    Ok(version) => {
                        let current = match version {
                            Some(version) => version == latest,
                            None => false,
                        };
                        if current {
                            self.resolved = true;
                            Some(found_step(mode))
                        } else {
                            self.phase = Phase::Installing { mode };
                            Some(install_step(latest))
                        }
                    },
                }
            },
            (Phase::Installing { mode }, Reply::InstallFinished { outcome }) => {
                self.phase = Phase::Confirming { mode, install: outcome };
                Some(probe_step(mode))
            },
            (Phase::Confirming { mode, install }, Reply::FileProbed { present }) => {
                if present {
                    self.resolved = true;
                    Some(found_step(mode))
                } else {
                    match install {
                        Ok(_) => Some(
                            failed_step(
                                ProvisionError::LayoutMismatch {
                                    package: PACKAGE_NAME.to_owned(),
                                    path: mode.expected_path().to_owned(),
                                },
                            ),
                        ),
                        Err(cause) => Some(failed_step(ProvisionError::InstallFailed { cause })),
                    }
                }
            },
            (phase, _) => {
                self.phase = phase;
                None
            },
        }
    }
}

} // verus!
