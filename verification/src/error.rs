//! Why a resolution can fail.

use vstd::prelude::*;

verus! {

/// A terminal failure of one resolution. Nothing is retried or swallowed: the
/// caller decides whether to ask again.
#[derive(Debug, PartialEq, Eq)]
pub enum ProvisionError {
    /// A version query to the registry failed; `cause` is the registry's own
    /// message.
    RegistryUnavailable { cause: String },
    /// The install failed and left no usable script behind; `cause` is the
    /// installer's own message.
    InstallFailed { cause: String },
    /// The install reported success, yet the package does not hold the script
    /// at `path`.
    LayoutMismatch { package: String, path: String },
}

/// A [`ProvisionError`] with its texts as sequences of characters.
pub enum ProvisionErrorView {
    RegistryUnavailable { cause: Seq<char> },
    InstallFailed { cause: Seq<char> },
    LayoutMismatch { package: Seq<char>, path: Seq<char> },
}

impl View for ProvisionError {
    type V = ProvisionErrorView;

    open spec fn view(&self) -> ProvisionErrorView {
        match self {
            ProvisionError::RegistryUnavailable { cause } => ProvisionErrorView::RegistryUnavailable {
                cause: cause@,
            },
            ProvisionError::InstallFailed { cause } => ProvisionErrorView::InstallFailed {
                cause: cause@,
            },
            ProvisionError::LayoutMismatch { package, path } => ProvisionErrorView::LayoutMismatch {
                package: package@,
                path: path@,
            },
        }
    }
}

/// The sentence that reports a package without the expected script.
pub open spec fn layout_mismatch_message(package: Seq<char>, path: Seq<char>) -> Seq<char> {
    "installed package '"@ + package + "' did not contain expected path '"@ + path + "'"@
}

impl ProvisionErrorView {
    /// What the user is told: a collaborator's message as it came, or the
    /// sentence that names the package and the missing path.
    pub open spec fn message(self) -> Seq<char> {
        match self {
            ProvisionErrorView::RegistryUnavailable { cause } => cause,
            ProvisionErrorView::InstallFailed { cause } => cause,
            ProvisionErrorView::LayoutMismatch { package, path } => layout_mismatch_message(
                package,
                path,
            ),
        }
    }
}

impl ProvisionError {
    /// The text to show for this error.
    pub fn message(&self) -> (text: String)
        ensures
            text@ == self@.message(),
    {
        match self {
            ProvisionError::RegistryUnavailable { cause } => cause.clone(),
            ProvisionError::InstallFailed { cause } => cause.clone(),
            ProvisionError::LayoutMismatch { package, path } => {
                let mut text = "installed package '".to_owned();
                text.append(package.as_str());
                text.append("' did not contain expected path '");
                text.append(path.as_str());
                text.append("'");
                text
            },
        }
    }
}

} // verus!
