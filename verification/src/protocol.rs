//! What the provisioner asks of its collaborators, and what they answer.
//!
//! The provisioner never touches the registry or the disk itself. It hands out
//! a [`Step`]: either a [`Request`] for the caller to carry out, or the final
//! result. The caller performs the request and reports the [`Reply`].

use vstd::prelude::*;
use crate::error::{ProvisionError, ProvisionErrorView};

verus! {

/// An advisory notice for the status channel. It is emitted before the request
/// it accompanies is carried out, whether or not that request then succeeds.
#[derive(Clone, Copy, Debug, PartialEq, Eq, Structural)]
pub enum Status {
    CheckingForUpdate,
    Downloading,
}

/// One operation for a collaborator to perform.
#[derive(Debug, PartialEq, Eq)]
pub enum Request {
    /// Filesystem probe: is `path` a regular file?
    ProbeFile { path: String },
    /// Registry: which version of `package` is the latest published one?
    LatestVersion { package: String },
    /// Registry: which version of `package` is installed, if any?
    InstalledVersion { package: String },
    /// Registry: install `version` of `package`.
    Install { package: String, version: String },
}

/// A [`Request`] with its texts as sequences of characters.
pub enum RequestView {
    ProbeFile { path: Seq<char> },
    LatestVersion { package: Seq<char> },
    InstalledVersion { package: Seq<char> },
    Install { package: Seq<char>, version: Seq<char> },
}

impl View for Request {
    type V = RequestView;

    open spec fn view(&self) -> RequestView {
        match self {
            Request::ProbeFile { path } => RequestView::ProbeFile { path: path@ },
            Request::LatestVersion { package } => RequestView::LatestVersion { package: package@ },
            Request::InstalledVersion { package } => RequestView::InstalledVersion {
                package: package@,
            },
            Request::Install { package, version } => RequestView::Install {
                package: package@,
                version: version@,
            },
        }
    }
}

impl RequestView {
    /// Whether the request goes to the package registry.
    pub open spec fn is_registry_call(self) -> bool {
        !(self is ProbeFile)
    }
}

/// What a collaborator answered. Failures carry the collaborator's message.
#[derive(Debug, PartialEq, Eq)]
pub enum Reply {
    /// Answer to [`Request::ProbeFile`]. Any failure to stat counts as `false`.
    FileProbed { present: bool },
    /// Answer to [`Request::LatestVersion`].
    LatestVersion { latest: Result<String, String> },
    /// Answer to [`Request::InstalledVersion`]; `Ok(None)` when no version is
    /// recorded as installed.
    InstalledVersion { installed: Result<Option<String>, String> },
    /// Answer to [`Request::Install`].
    InstallFinished { outcome: Result<(), String> },
}

/// A [`Reply`] with its texts as sequences of characters.
pub enum ReplyView {
    FileProbed { present: bool },
    LatestVersion { latest: Result<Seq<char>, Seq<char>> },
    InstalledVersion { installed: Result<Option<Seq<char>>, Seq<char>> },
    InstallFinished { outcome: Result<(), Seq<char>> },
}

/// The view of a latest-version answer.
pub open spec fn latest_view(outcome: Result<String, String>) -> Result<Seq<char>, Seq<char>> {
    match outcome {
        Ok(version) => Ok(version@),
        Err(cause) => Err(cause@),
    }
}

/// The view of an installed-version answer.
pub open spec fn installed_view(outcome: Result<Option<String>, String>) -> Result<
    Option<Seq<char>>,
    Seq<char>,
> {
    match outcome {
        Ok(Some(version)) => Ok(Some(version@)),
        Ok(None) => Ok(None),
        Err(cause) => Err(cause@),
    }
}

/// The view of an install outcome.
pub open spec fn install_view(outcome: Result<(), String>) -> Result<(), Seq<char>> {
    match outcome {
        Ok(_) => Ok(()),
        Err(cause) => Err(cause@),
    }
}

impl View for Reply {
    type V = ReplyView;

    open spec fn view(&self) -> ReplyView {
        match self {
            Reply::FileProbed { present } => ReplyView::FileProbed { present: *present },
            Reply::LatestVersion { latest } => ReplyView::LatestVersion {
                latest: latest_view(*latest),
            },
            Reply::InstalledVersion { installed } => ReplyView::InstalledVersion {
                installed: installed_view(*installed),
            },
            Reply::InstallFinished { outcome } => ReplyView::InstallFinished {
                outcome: install_view(*outcome),
            },
        }
    }
}

/// What the caller has to do next.
#[derive(Debug, PartialEq, Eq)]
pub enum Step {
    /// Emit `notice`, if there is one, then perform `request` and report its
    /// reply.
    Perform { notice: Option<Status>, request: Request },
    /// The resolution is over: the script path to launch, or why there is none.
    Finish { result: Result<String, ProvisionError> },
}

/// A [`Step`] with its texts as sequences of characters.
pub enum StepView {
    Perform { notice: Option<Status>, request: RequestView },
    Finish { result: Result<Seq<char>, ProvisionErrorView> },
}

/// The view of a resolution's result.
pub open spec fn result_view(result: Result<String, ProvisionError>) -> Result<
    Seq<char>,
    ProvisionErrorView,
> {
    match result {
        Ok(path) => Ok(path@),
        Err(error) => Err(error@),
    }
}

impl View for Step {
    type V = StepView;

    open spec fn view(&self) -> StepView {
        match self {
            Step::Perform { notice, request } => StepView::Perform {
                notice: *notice,
                request: request@,
            },
            Step::Finish { result } => StepView::Finish { result: result_view(*result) },
        }
    }
}

} // verus!
