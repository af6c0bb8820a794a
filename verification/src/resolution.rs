//! A whole resolution: the state machine run to its end against the answers
//! of its collaborators.

use vstd::prelude::*;
use crate::error::ProvisionErrorView;
use crate::layout::{expected_path, ServerMode, PACKAGE_NAME};
use crate::model::{begin, needs_install, react, PhaseView, ProvisionerView};
use crate::protocol::{ReplyView, RequestView, Status, StepView};

verus! {

/// What the collaborators answer in the course of one resolution. Each field
/// is the answer to one request, should the resolution come to make it.
pub struct World {
    /// The probe of the expected script at the start.
    pub present: bool,
    /// The registry's latest published version.
    pub latest: Result<Seq<char>, Seq<char>>,
    /// The registry's installed version.
    pub installed: Result<Option<Seq<char>>, Seq<char>>,
    /// How the install ends.
    pub install: Result<(), Seq<char>>,
    /// The probe of the expected script after the install.
    pub present_after_install: bool,
}

impl World {
    /// The reply that this world gives to the request pending in `phase`.
    /// Where nothing is pending the choice does not matter: every reply is
    /// refused there.
    pub open spec fn reply(self, phase: PhaseView) -> ReplyView {
        match phase {
            PhaseView::Idle => ReplyView::FileProbed { present: self.present },
            PhaseView::Probing { .. } => ReplyView::FileProbed { present: self.present },
            PhaseView::QueryingLatest { .. } => ReplyView::LatestVersion { latest: self.latest },
            PhaseView::QueryingInstalled { .. } => ReplyView::InstalledVersion {
                installed: self.installed,
            },
            PhaseView::Installing { .. } => ReplyView::InstallFinished { outcome: self.install },
            PhaseView::Confirming { .. } => ReplyView::FileProbed {
                present: self.present_after_install,
            },
        }
    }
}

/// Something the caller does on the provisioner's behalf, in the order in
/// which it is done.
pub enum Effect {
    /// A notice sent to the status channel.
    Notice(Status),
    /// A request carried out by a collaborator.
    Request(RequestView),
}

impl Effect {
    /// Whether this effect is a call to the package registry.
    pub open spec fn is_registry_call(self) -> bool {
        match self {
            Effect::Notice(_) => false,
            Effect::Request(request) => request.is_registry_call(),
        }
    }
}

/// What carrying out `step` does: the notice first, if there is one, then the
/// request. A final step does nothing.
pub open spec fn effects_of(step: StepView) -> Seq<Effect> {
    match step {
        StepView::Finish { .. } => Seq::empty(),
        StepView::Perform { notice: None, request } => seq![Effect::Request(request)],
        StepView::Perform { notice: Some(status), request } => seq![
            Effect::Notice(status),
            Effect::Request(request),
        ],
    }
}

/// A resolution at some point of its course.
pub struct Run {
    /// The provisioner's state.
    pub state: ProvisionerView,
    /// The step it handed out last.
    pub step: StepView,
    /// Everything done so far, oldest first.
    pub effects: Seq<Effect>,
}

/// The start of a resolution for `mode`.
pub open spec fn start(state: ProvisionerView, mode: ServerMode) -> Run {
    let (state, step) = begin(state, mode);
    Run { state, step, effects: effects_of(step) }
}

/// One turn of the dialogue: the world answers the pending request and the
/// provisioner reacts. A run that has finished stays as it is.
pub open spec fn follow(run: Run, world: World) -> Run {
    match run.step {
        StepView::Finish { .. } => run,
        StepView::Perform { .. } => match react(run.state, world.reply(run.state.phase)) {
            Some((state, step)) => Run { state, step, effects: run.effects + effects_of(step) },
            None => run,
        },
    }
}

/// The resolution for `mode` run to its end in `world`. Five turns are enough
/// for any resolution: see [`lemma_resolve_is_closed_form`].
pub open spec fn resolve(state: ProvisionerView, mode: ServerMode, world: World) -> Run {
    follow(follow(follow(follow(follow(start(state, mode), world), world), world), world), world)
}

/// Whether the resolution is settled by the first probe alone.
pub open spec fn takes_fast_path(resolved: bool, world: World) -> bool {
    resolved && world.present
}

/// Whether the resolution comes to ask which version is installed: only when
/// the script is there and the latest version is known.
pub open spec fn asks_installed(resolved: bool, world: World) -> bool {
    !takes_fast_path(resolved, world) && world.latest is Ok && world.present
}

/// Whether the resolution comes to attempt an install.
pub open spec fn installs(resolved: bool, world: World) -> bool {
    &&& !takes_fast_path(resolved, world)
    &&& world.latest matches Ok(latest)
    &&& world.present ==> (world.installed matches Ok(installed) && needs_install(
        true,
        installed,
        latest,
    ))
}

/// What the last probe of a resolution reported.
pub open spec fn last_probe(resolved: bool, world: World) -> bool {
    if installs(resolved, world) {
        world.present_after_install
    } else {
        world.present
    }
}

/// What a resolution returns, said at once: the expected path where the script
/// is in place at the last probe and no version query failed on the way, and
/// otherwise the first failure met.
pub open spec fn outcome(resolved: bool, mode: ServerMode, world: World) -> Result<
    Seq<char>,
    ProvisionErrorView,
> {
    if takes_fast_path(resolved, world) {
        Ok(expected_path(mode))
    } else {
        match (world.latest, world.installed) {
            (Err(cause), _) => Err(ProvisionErrorView::RegistryUnavailable { cause }),
            (Ok(_), Err(cause)) if world.present => Err(
                ProvisionErrorView::RegistryUnavailable { cause },
            ),
            _ => if !installs(resolved, world) || world.present_after_install {
                Ok(expected_path(mode))
            } else {
                match world.install {
                    Ok(_) => Err(
                        ProvisionErrorView::LayoutMismatch {
                            package: PACKAGE_NAME@,
                            path: expected_path(mode),
                        },
                    ),
                    Err(cause) => Err(ProvisionErrorView::InstallFailed { cause }),
                }
            },
        }
    }
}

/// The probe of the script that `mode` expects.
pub open spec fn probe(mode: ServerMode) -> Effect {
    Effect::Request(RequestView::ProbeFile { path: expected_path(mode) })
}

/// The update check: its notice, then the query for the latest version.
pub open spec fn update_check() -> Seq<Effect> {
    seq![
        Effect::Notice(Status::CheckingForUpdate),
        Effect::Request(RequestView::LatestVersion { package: PACKAGE_NAME@ }),
    ]
}

/// The query for the installed version.
pub open spec fn installed_query() -> Effect {
    Effect::Request(RequestView::InstalledVersion { package: PACKAGE_NAME@ })
}

/// An install of `version`: its notice, the install, and the probe after it.
pub open spec fn installation(mode: ServerMode, version: Seq<char>) -> Seq<Effect> {
    seq![
        Effect::Notice(Status::Downloading),
        Effect::Request(RequestView::Install { package: PACKAGE_NAME@, version }),
        probe(mode),
    ]
}

/// Everything a resolution does, said at once.
pub open spec fn trace(resolved: bool, mode: ServerMode, world: World) -> Seq<Effect> {
    let checked = seq![probe(mode)] + update_check();
    let compared = if asks_installed(resolved, world) {
        checked.push(installed_query())
    } else {
        checked
    };
    if takes_fast_path(resolved, world) {
        seq![probe(mode)]
    } else if installs(resolved, world) {
        compared + installation(mode, world.latest->Ok_0)
    } else {
        compared
    }
}

/// The run that [`resolve`] arrives at, said at once.
pub open spec fn closed_form(state: ProvisionerView, mode: ServerMode, world: World) -> Run {
    let result = outcome(state.resolved, mode, world);
    Run {
        state: ProvisionerView { resolved: state.resolved || result is Ok, phase: PhaseView::Idle },
        step: StepView::Finish { result },
        effects: trace(state.resolved, mode, world),
    }
}

/// Every resolution ends within five turns, and it ends as [`outcome`] and
/// [`trace`] say: the state machine, driven step by step, computes them.
pub proof fn lemma_resolve_is_closed_form(state: ProvisionerView, mode: ServerMode, world: World)
    ensures
        resolve(state, mode, world) == closed_form(state, mode, world),
{
    let result = resolve(state, mode, world);
    let expected = closed_form(state, mode, world);
    assert(result.effects =~= expected.effects);
}

} // verus!
