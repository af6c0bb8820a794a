//! What holds of every resolution, proved from the state machine.

use vstd::prelude::*;
use crate::error::{layout_mismatch_message, ProvisionErrorView};
use crate::layout::{expected_path, ServerMode, PACKAGE_NAME};
use crate::model::{react, ProvisionerView};
use crate::protocol::{ReplyView, RequestView, Status, StepView};
use crate::resolution::{
    installation, installs, last_probe, lemma_resolve_is_closed_form, probe, resolve,
    takes_fast_path, update_check, Effect, World,
};

verus! {

/// Whether `effect` is a query for the latest published version.
pub open spec fn is_update_query(effect: Effect) -> bool {
    effect matches Effect::Request(RequestView::LatestVersion { .. })
}

/// Every notice rides on the request it announces: the update check is
/// announced with the query for the latest version and with no other request,
/// and the download with the install and with no other request. A notice is
/// therefore out before its request is carried out, however that request ends.
pub proof fn lemma_notice_accompanies_request(state: ProvisionerView, reply: ReplyView)
    ensures
        react(state, reply) matches Some((_, StepView::Perform { notice, request })) ==> {
            &&& notice == Some(Status::CheckingForUpdate) <==> request is LatestVersion
            &&& notice == Some(Status::Downloading) <==> request is Install
        },
{
}

/// A provisioner that has resolved before and finds the script in place
/// returns the expected path after that one probe: it makes no call to the
/// registry and sends no notice, whatever the registry would have answered.
pub proof fn lemma_fast_path_skips_registry(state: ProvisionerView, mode: ServerMode, world: World)
    requires
        state.resolved,
        world.present,
    ensures
        resolve(state, mode, world).step == (StepView::Finish { result: Ok(expected_path(mode)) }),
        resolve(state, mode, world).effects == seq![probe(mode)],
        forall|i: int|
            0 <= i < resolve(state, mode, world).effects.len() ==> !(#[trigger] resolve(
                state,
                mode,
                world,
            ).effects[i]).is_registry_call(),
        resolve(state, mode, world).state.resolved,
{
    lemma_resolve_is_closed_form(state, mode, world);
}

/// With the script missing and `version` the latest published one, an install
/// of exactly `version` is attempted, whatever is recorded as installed: the
/// resolution probes, checks for the update, installs and probes again. If the
/// install succeeds and the script is then in place, the resolution returns the
/// expected path and the provisioner is resolved afterwards.
pub proof fn lemma_missing_script_is_installed(
    state: ProvisionerView,
    mode: ServerMode,
    world: World,
    version: Seq<char>,
)
    requires
        !world.present,
        world.latest == Ok::<Seq<char>, Seq<char>>(version),
    ensures
        installs(state.resolved, world),
        resolve(state, mode, world).effects == seq![probe(mode)] + update_check() + installation(
            mode,
            version,
        ),
        world.install is Ok && world.present_after_install ==> {
            &&& resolve(state, mode, world).step == (StepView::Finish {
                result: Ok(expected_path(mode)),
            })
            &&& resolve(state, mode, world).state.resolved
        },
{
    lemma_resolve_is_closed_form(state, mode, world);
}

/// An install is attempted exactly in the resolutions of which [`installs`]
/// says so, and it is an install of the latest published version.
pub proof fn lemma_installs_means_install_requested(
    state: ProvisionerView,
    mode: ServerMode,
    world: World,
)
    ensures
        installs(state.resolved, world) <==> exists|i: int|
            0 <= i < resolve(state, mode, world).effects.len() && (#[trigger] resolve(
                state,
                mode,
                world,
            ).effects[i] matches Effect::Request(RequestView::Install { .. })),
        installs(state.resolved, world) ==> resolve(state, mode, world).effects.contains(
            Effect::Request(
                RequestView::Install { package: PACKAGE_NAME@, version: world.latest->Ok_0 },
            ),
        ),
{
    lemma_resolve_is_closed_form(state, mode, world);
    let effects = resolve(state, mode, world).effects;
    if installs(state.resolved, world) {
        let at = effects.len() - 2;
        assert(effects[at] == Effect::Request(
            RequestView::Install { package: PACKAGE_NAME@, version: world.latest->Ok_0 },
        ));
    }
}

/// Where an install is attempted and fails, and the script is still missing
/// afterwards, the resolution fails with `InstallFailed`, which carries the
/// installer's own message. The provisioner's flag is left as it was.
pub proof fn lemma_failed_install_is_reported(
    state: ProvisionerView,
    mode: ServerMode,
    world: World,
    cause: Seq<char>,
)
    requires
        installs(state.resolved, world),
        world.install == Err::<(), Seq<char>>(cause),
        !world.present_after_install,
    ensures
        resolve(state, mode, world).step == (StepView::Finish {
            result: Err(ProvisionErrorView::InstallFailed { cause }),
        }),
        resolve(state, mode, world).state.resolved == state.resolved,
{
    lemma_resolve_is_closed_form(state, mode, world);
}

/// Where an install is attempted and fails, but the script is in place
/// afterwards, the script wins: the resolution succeeds.
pub proof fn lemma_script_survives_failed_install(
    state: ProvisionerView,
    mode: ServerMode,
    world: World,
)
    requires
        installs(state.resolved, world),
        world.install is Err,
        world.present_after_install,
    ensures
        resolve(state, mode, world).step == (StepView::Finish { result: Ok(expected_path(mode)) }),
        resolve(state, mode, world).state.resolved,
{
    lemma_resolve_is_closed_form(state, mode, world);
}

/// Where an install is attempted and succeeds, but the script is still
/// missing afterwards, the resolution fails with `LayoutMismatch`, which names
/// the package and the expected path, as does its message. The provisioner's
/// flag is left as it was.
pub proof fn lemma_install_without_script_is_mismatch(
    state: ProvisionerView,
    mode: ServerMode,
    world: World,
)
    requires
        installs(state.resolved, world),
        world.install is Ok,
        !world.present_after_install,
    ensures
        resolve(state, mode, world).step == (StepView::Finish {
            result: Err(
                ProvisionErrorView::LayoutMismatch {
                    package: PACKAGE_NAME@,
                    path: expected_path(mode),
                },
            ),
        }),
        (ProvisionErrorView::LayoutMismatch {
            package: PACKAGE_NAME@,
            path: expected_path(mode),
        }).message() == layout_mismatch_message(PACKAGE_NAME@, expected_path(mode)),
        resolve(state, mode, world).state.resolved == state.resolved,
{
    lemma_resolve_is_closed_form(state, mode, world);
}

/// Where the query for the latest version fails and the script is missing, the
/// resolution fails with `RegistryUnavailable`, which carries the registry's
/// own message. Nothing is installed, and the provisioner's flag is left as it
/// was: one that was unresolved stays unresolved.
pub proof fn lemma_failed_query_without_script(
    state: ProvisionerView,
    mode: ServerMode,
    world: World,
    cause: Seq<char>,
)
    requires
        !world.present,
        world.latest == Err::<Seq<char>, Seq<char>>(cause),
    ensures
        resolve(state, mode, world).step == (StepView::Finish {
            result: Err(ProvisionErrorView::RegistryUnavailable { cause }),
        }),
        resolve(state, mode, world).effects == seq![probe(mode)] + update_check(),
        resolve(state, mode, world).state.resolved == state.resolved,
{
    lemma_resolve_is_closed_form(state, mode, world);
}

/// A failed query for the latest version ends the resolution even with the
/// script in place, unless the first probe settled it: there is no fallback to
/// a copy that may be stale.
pub proof fn lemma_failed_query_is_terminal(
    state: ProvisionerView,
    mode: ServerMode,
    world: World,
    cause: Seq<char>,
)
    requires
        !(state.resolved && world.present),
        world.latest == Err::<Seq<char>, Seq<char>>(cause),
    ensures
        resolve(state, mode, world).step == (StepView::Finish {
            result: Err(ProvisionErrorView::RegistryUnavailable { cause }),
        }),
        resolve(state, mode, world).state.resolved == state.resolved,
{
    lemma_resolve_is_closed_form(state, mode, world);
}

/// A resolution succeeds only with the script in place at its last probe, and
/// then returns the expected path of its mode and leaves the flag set. A
/// resolution that fails leaves the flag as it was. So the flag, once set,
/// stays set, and it is only ever set upon a probe that found the script.
pub proof fn lemma_flag_follows_success(state: ProvisionerView, mode: ServerMode, world: World)
    ensures
        resolve(state, mode, world).step is Finish,
        resolve(state, mode, world).state.phase is Idle,
        match resolve(state, mode, world).step->result {
            Ok(path) => {
                &&& path == expected_path(mode)
                &&& last_probe(state.resolved, world)
                &&& resolve(state, mode, world).state.resolved
            },
            Err(_) => resolve(state, mode, world).state.resolved == state.resolved,
        },
{
    lemma_resolve_is_closed_form(state, mode, world);
}

/// A resolution that succeeds by more than the first probe has done what can
/// be done for freshness: the latest version is known, and either it is the
/// one recorded as installed or an install of it was attempted.
pub proof fn lemma_success_is_current(state: ProvisionerView, mode: ServerMode, world: World)
    requires
        resolve(state, mode, world).step matches StepView::Finish { result: Ok(_) },
        !takes_fast_path(state.resolved, world),
    ensures
        world.latest is Ok,
        installs(state.resolved, world) || (world.present && world.installed == Ok::<
            Option<Seq<char>>,
            Seq<char>,
        >(Some(world.latest->Ok_0))),
{
    lemma_resolve_is_closed_form(state, mode, world);
}

/// Resolving twice in a row is resolving once. If a resolution succeeds and
/// the disk does not change before the next one, so that its first probe
/// reports what the last probe before it did, the second resolution returns
/// the same path after that one probe and leaves the provisioner as it found
/// it. It makes no call to the registry, so both together query the latest
/// version at most once.
pub proof fn lemma_second_resolution_is_fast(
    state: ProvisionerView,
    mode: ServerMode,
    first: World,
    second: World,
)
    requires
        resolve(state, mode, first).step matches StepView::Finish { result: Ok(_) },
        second.present == last_probe(state.resolved, first),
    ensures
        ({
            let once = resolve(state, mode, first);
            let twice = resolve(once.state, mode, second);
            let both = once.effects + twice.effects;
            &&& twice.step == once.step
            &&& twice.state == once.state
            &&& twice.effects == seq![probe(mode)]
            &&& forall|i: int, j: int|
                0 <= i < both.len() && 0 <= j < both.len() && is_update_query(#[trigger] both[i])
                    && is_update_query(#[trigger] both[j]) ==> i == j
        }),
{
    lemma_resolve_is_closed_form(state, mode, first);
    let once = resolve(state, mode, first);
    lemma_resolve_is_closed_form(once.state, mode, second);
}

} // verus!
