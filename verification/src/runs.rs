//! Runs of the bootstrap, and what holds of every run.
//!
//! A run is the sequence of events that a negotiator is stepped with from
//! its initial state. `events[0]` is the signal to begin; for `k >= 1` the
//! request issued on the `k`-th event is answered by `events[k]`.

use crate::format::PixelFormatDescriptor;
use crate::negotiator::{Action, Event, Negotiator, SetupError, Stage};
use crate::surface::Role;
use crate::symbols::{Probe, Source};
use vstd::prelude::*;

verus! {

/// One step of a run: the transition of the negotiator. Proofs about runs
/// go through the laws of a step below and open this only there.
#[verifier::opaque]
pub open spec fn advance(state: Negotiator, event: Event) -> (Negotiator, Action) {
    state.next(event)
}

/// The state after the first `k` events of `events`.
pub open spec fn state_after(events: Seq<Event>, k: nat) -> Negotiator
    recommends
        k <= events.len(),
    decreases k,
{
    if k == 0 {
        Negotiator::initial()
    } else {
        advance(state_after(events, (k - 1) as nat), events[k - 1]).0
    }
}

/// The request issued on the `k`-th event of `events`, for `k >= 1`.
pub open spec fn request_after(events: Seq<Event>, k: nat) -> Action
    recommends
        1 <= k <= events.len(),
{
    advance(state_after(events, (k - 1) as nat), events[k - 1]).1
}

/// The place of a stage in the order of a bootstrap without failure;
/// a failed bootstrap has none.
pub open spec fn order(stage: Stage) -> int {
    match stage {
        Stage::Idle => 0,
        Stage::AwaitInstance(Role::Temporary) => 1,
        Stage::AwaitClass(Role::Temporary) => 2,
        Stage::AwaitWindow(Role::Temporary) => 3,
        Stage::AwaitDeviceContext(Role::Temporary) => 4,
        Stage::AwaitBasicFormat => 5,
        Stage::AwaitFormatApplied(Role::Temporary) => 6,
        Stage::AwaitContext(Role::Temporary) => 7,
        Stage::AwaitCurrent(Role::Temporary) => 8,
        Stage::AwaitLibrary => 9,
        Stage::AwaitFunctions => 10,
        Stage::AwaitEntryPoint => 11,
        Stage::AwaitNegotiation => 12,
        Stage::AwaitDescription => 13,
        Stage::AwaitInstance(Role::Rendering) => 14,
        Stage::AwaitClass(Role::Rendering) => 15,
        Stage::AwaitWindow(Role::Rendering) => 16,
        Stage::AwaitDeviceContext(Role::Rendering) => 17,
        Stage::AwaitFormatApplied(Role::Rendering) => 18,
        Stage::AwaitContext(Role::Rendering) => 19,
        Stage::AwaitCurrent(Role::Rendering) => 20,
        Stage::AwaitShown => 21,
        Stage::Ready => 22,
        Stage::Failed(_) => -1,
    }
}

/// The request that a state waits to have answered, if it waits.
pub open spec fn awaited(state: Negotiator) -> Option<Action> {
    match state.stage {
        Stage::AwaitInstance(_) => Some(Action::GetInstance),
        Stage::AwaitClass(role) => Some(
            Action::RegisterClass {
                role,
                instance: state.instance,
                class: crate::surface::spec_window_class(role),
            },
        ),
        Stage::AwaitWindow(role) => Some(
            Action::CreateWindow {
                role,
                instance: state.instance,
                request: crate::surface::spec_window_request(),
            },
        ),
        Stage::AwaitDeviceContext(role) => Some(
            Action::GetDeviceContext { window: state.surface(role).window },
        ),
        Stage::AwaitBasicFormat => Some(
            Action::ChooseBasicFormat {
                dc: state.temporary.dc,
                descriptor: PixelFormatDescriptor::spec_basic(),
            },
        ),
        Stage::AwaitFormatApplied(role) => Some(
            Action::ApplyFormat {
                dc: state.surface(role).dc,
                format: state.surface(role).format,
                descriptor: state.surface(role).descriptor,
            },
        ),
        Stage::AwaitContext(role) => Some(Action::CreateContext { dc: state.surface(role).dc }),
        Stage::AwaitCurrent(role) => Some(
            Action::MakeCurrent { dc: state.surface(role).dc, context: state.context(role) },
        ),
        Stage::AwaitLibrary => Some(Action::LocateLibrary),
        Stage::AwaitFunctions => Some(Action::LoadFunctions { library: state.library }),
        Stage::AwaitEntryPoint => Some(Action::ResolveChooser),
        Stage::AwaitNegotiation => Some(
            Action::ChooseNegotiatedFormat {
                chooser: state.entry_point,
                dc: state.temporary.dc,
                wanted: crate::attributes::FormatRequest::spec_negotiated(),
                max_formats: crate::attributes::REQUESTED_FORMATS,
            },
        ),
        Stage::AwaitDescription => Some(
            Action::DescribeFormat { dc: state.temporary.dc, format: state.rendering.format },
        ),
        Stage::AwaitShown => Some(Action::Show { window: state.rendering.window }),
        Stage::Idle | Stage::Ready | Stage::Failed(_) => None,
    }
}

/// Resources exist in the order of their creation: a later one is known
/// only if every earlier one is.
pub open spec fn created_in_order(state: Negotiator) -> bool {
    &&& state.temporary.window != 0 ==> state.instance != 0
    &&& state.temporary.dc != 0 ==> state.temporary.window != 0
    &&& state.temporary.format != 0 ==> state.temporary.dc != 0
    &&& state.temporary_context != 0 ==> state.temporary.format != 0
    &&& state.current is Some ==> state.temporary_context != 0
    &&& state.library != 0 ==> state.current is Some
    &&& state.entry_point != 0 ==> state.library != 0
    &&& state.rendering != crate::negotiator::Surface::spec_unknown() ==> state.entry_point != 0
    &&& state.rendering.dc != 0 ==> state.rendering.window != 0
    &&& state.rendering_context != 0 ==> state.rendering.dc != 0
    &&& state.current == Some(Role::Rendering) ==> state.rendering_context != 0
}

/// What a state that has not failed knows at its stage.
pub open spec fn matches_stage(state: Negotiator) -> bool {
    let n = order(state.stage);
    n >= 0 ==> {
        &&& n >= 2 <==> state.instance != 0
        &&& n >= 4 <==> state.temporary.window != 0
        &&& n >= 5 <==> state.temporary.dc != 0
        &&& n >= 6 <==> state.temporary.format != 0
        &&& n >= 6 ==> state.temporary.descriptor == PixelFormatDescriptor::spec_basic()
        &&& n >= 8 <==> state.temporary_context != 0
        &&& n >= 9 <==> state.current is Some
        &&& n >= 10 <==> state.library != 0
        &&& n >= 12 <==> state.entry_point != 0
        &&& n <= 12 ==> state.rendering == crate::negotiator::Surface::spec_unknown()
        &&& n >= 17 <==> state.rendering.window != 0
        &&& n >= 18 <==> state.rendering.dc != 0
        &&& n >= 20 <==> state.rendering_context != 0
        &&& n >= 21 <==> state.current == Some(Role::Rendering)
    }
}

/// What holds of every state that a run can reach.
pub open spec fn well_formed(state: Negotiator) -> bool {
    created_in_order(state) && matches_stage(state)
}

/// A request that reaches the driver's extensions: loading the function
/// table, resolving the extended chooser, or calling it.
pub open spec fn resolves_extensions(action: Action) -> bool {
    action is LoadFunctions || action is ResolveChooser || action is ChooseNegotiatedFormat
}

/// A request that begins to build the rendering surface: registering its
/// class or creating its window.
pub open spec fn builds_rendering_surface(action: Action) -> bool {
    ||| action matches Action::RegisterClass { role: Role::Rendering, .. }
    ||| action matches Action::CreateWindow { role: Role::Rendering, .. }
}

/// `event` answers the request that `state` waits on, and reports
/// success; for a bootstrap that has not begun, `event` is the signal to
/// begin.
pub open spec fn succeeds(state: Negotiator, event: Event) -> bool {
    match (state.stage, event) {
        (Stage::Idle, Event::Start) => true,
        (Stage::AwaitInstance(_), Event::Instance { found, instance }) => found && instance != 0,
        (Stage::AwaitClass(_), Event::ClassRegistered { atom, last_error }) => atom != 0
            || last_error == crate::surface::ERROR_CLASS_ALREADY_EXISTS,
        (Stage::AwaitWindow(_), Event::WindowCreated(window)) => window != 0,
        (Stage::AwaitDeviceContext(_), Event::DeviceContext(dc)) => dc != 0,
        (Stage::AwaitBasicFormat, Event::BasicFormat(format)) => format != 0,
        (Stage::AwaitFormatApplied(_), Event::FormatApplied(applied)) => applied,
        (Stage::AwaitContext(_), Event::ContextCreated(context)) => context != 0,
        (Stage::AwaitCurrent(_), Event::MadeCurrent(current)) => current,
        (Stage::AwaitLibrary, Event::Library(library)) => library != 0,
        (Stage::AwaitFunctions, Event::FunctionsLoaded) => true,
        (Stage::AwaitEntryPoint, Event::EntryPoint(probe)) => probe matches Probe::Resolved {
            address,
            source: Source::Extension,
        } && address != 0,
        (Stage::AwaitNegotiation, Event::Negotiated { accepted, matches, .. }) => accepted
            && matches != 0,
        (Stage::AwaitDescription, Event::Described { result, .. }) => result != 0,
        (Stage::AwaitShown, Event::Shown) => true,
        _ => false,
    }
}

/// The `j`-th request of the run made the minimal context current on the
/// temporary surface, and the platform confirmed it.
pub open spec fn activates_minimal_context(events: Seq<Event>, j: nat) -> bool {
    &&& 1 <= j < events.len()
    &&& state_after(events, j).stage == Stage::AwaitCurrent(Role::Temporary)
    &&& request_after(events, j) == Action::MakeCurrent {
        dc: state_after(events, j).temporary.dc,
        context: state_after(events, j).temporary_context,
    }
    &&& events[j as int] == Event::MadeCurrent(true)
}

/// A step of a run is the transition of the negotiator.
pub proof fn step_is_transition(state: Negotiator, event: Event)
    ensures
        advance(state, event) == state.next(event),
{
    reveal(advance);
}

/// A step keeps a state well formed.
pub proof fn step_keeps_well_formed(state: Negotiator, event: Event)
    requires
        well_formed(state),
    ensures
        well_formed(advance(state, event).0),
{
    reveal(advance);
    // one case for each answer in its turn, one for all the others
    match (state.stage, event) {
        (Stage::Idle, Event::Start) => {},
        (Stage::AwaitInstance(_), Event::Instance { .. }) => {},
        (Stage::AwaitClass(_), Event::ClassRegistered { .. }) => {},
        (Stage::AwaitWindow(_), Event::WindowCreated(_)) => {},
        (Stage::AwaitDeviceContext(_), Event::DeviceContext(_)) => {},
        (Stage::AwaitBasicFormat, Event::BasicFormat(_)) => {},
        (Stage::AwaitFormatApplied(_), Event::FormatApplied(_)) => {},
        (Stage::AwaitContext(_), Event::ContextCreated(_)) => {},
        (Stage::AwaitCurrent(_), Event::MadeCurrent(_)) => {},
        (Stage::AwaitLibrary, Event::Library(_)) => {},
        (Stage::AwaitFunctions, Event::FunctionsLoaded) => {},
        (Stage::AwaitEntryPoint, Event::EntryPoint(_)) => {},
        (Stage::AwaitNegotiation, Event::Negotiated { .. }) => {},
        (Stage::AwaitDescription, Event::Described { .. }) => {},
        (Stage::AwaitShown, Event::Shown) => {},
        (Stage::Ready, _) => {},
        (Stage::Failed(_), _) => {},
        _ => {},
    }
}

/// The request that a step issues is the one that the new state waits on.
pub proof fn step_issues_awaited(state: Negotiator, event: Event)
    ensures
        awaited(advance(state, event).0) matches Some(request) ==> advance(state, event).1
            == request,
{
    reveal(advance);
    // one case for each answer in its turn, one for all the others
    match (state.stage, event) {
        (Stage::Idle, Event::Start) => {},
        (Stage::AwaitInstance(_), Event::Instance { .. }) => {},
        (Stage::AwaitClass(_), Event::ClassRegistered { .. }) => {},
        (Stage::AwaitWindow(_), Event::WindowCreated(_)) => {},
        (Stage::AwaitDeviceContext(_), Event::DeviceContext(_)) => {},
        (Stage::AwaitBasicFormat, Event::BasicFormat(_)) => {},
        (Stage::AwaitFormatApplied(_), Event::FormatApplied(_)) => {},
        (Stage::AwaitContext(_), Event::ContextCreated(_)) => {},
        (Stage::AwaitCurrent(_), Event::MadeCurrent(_)) => {},
        (Stage::AwaitLibrary, Event::Library(_)) => {},
        (Stage::AwaitFunctions, Event::FunctionsLoaded) => {},
        (Stage::AwaitEntryPoint, Event::EntryPoint(_)) => {},
        (Stage::AwaitNegotiation, Event::Negotiated { .. }) => {},
        (Stage::AwaitDescription, Event::Described { .. }) => {},
        (Stage::AwaitShown, Event::Shown) => {},
        (Stage::Ready, _) => {},
        (Stage::Failed(_), _) => {},
        _ => {},
    }
}

/// A step that does not fail moves one place on in the order of the
/// bootstrap, until the bootstrap is ready; a failed bootstrap stays as it
/// is and asks for the abort again.
pub proof fn step_advances(state: Negotiator, event: Event)
    ensures
        state.stage matches Stage::Failed(error) ==> advance(state, event) == (
            state,
            Action::Abort(error),
        ),
        state.stage is Ready ==> advance(state, event) == (state, Action::Done),
        advance(state, event).0.stage is Failed <==> advance(state, event).1 is Abort,
        !(advance(state, event).0.stage is Failed) && !(state.stage is Ready) ==> order(
            advance(state, event).0.stage,
        ) == order(state.stage) + 1 && order(state.stage) >= 0,
{
    reveal(advance);
    // one case for each answer in its turn, one for all the others
    match (state.stage, event) {
        (Stage::Idle, Event::Start) => {},
        (Stage::AwaitInstance(_), Event::Instance { .. }) => {},
        (Stage::AwaitClass(_), Event::ClassRegistered { .. }) => {},
        (Stage::AwaitWindow(_), Event::WindowCreated(_)) => {},
        (Stage::AwaitDeviceContext(_), Event::DeviceContext(_)) => {},
        (Stage::AwaitBasicFormat, Event::BasicFormat(_)) => {},
        (Stage::AwaitFormatApplied(_), Event::FormatApplied(_)) => {},
        (Stage::AwaitContext(_), Event::ContextCreated(_)) => {},
        (Stage::AwaitCurrent(_), Event::MadeCurrent(_)) => {},
        (Stage::AwaitLibrary, Event::Library(_)) => {},
        (Stage::AwaitFunctions, Event::FunctionsLoaded) => {},
        (Stage::AwaitEntryPoint, Event::EntryPoint(_)) => {},
        (Stage::AwaitNegotiation, Event::Negotiated { .. }) => {},
        (Stage::AwaitDescription, Event::Described { .. }) => {},
        (Stage::AwaitShown, Event::Shown) => {},
        (Stage::Ready, _) => {},
        (Stage::Failed(_), _) => {},
        _ => {},
    }
}

/// What a request tells of the state that issued it.
pub proof fn request_tells_stage(state: Negotiator, event: Event)
    ensures
        resolves_extensions(advance(state, event).1) ==> 10 <= order(
            advance(state, event).0.stage,
        ) <= 12,
        advance(state, event).1 is ChooseNegotiatedFormat ==> advance(state, event).0.stage
            == Stage::AwaitNegotiation,
        builds_rendering_surface(advance(state, event).1) ==> 15 <= order(
            advance(state, event).0.stage,
        ) <= 16,
{
    reveal(advance);
    // one case for each answer in its turn, one for all the others
    match (state.stage, event) {
        (Stage::Idle, Event::Start) => {},
        (Stage::AwaitInstance(_), Event::Instance { .. }) => {},
        (Stage::AwaitClass(_), Event::ClassRegistered { .. }) => {},
        (Stage::AwaitWindow(_), Event::WindowCreated(_)) => {},
        (Stage::AwaitDeviceContext(_), Event::DeviceContext(_)) => {},
        (Stage::AwaitBasicFormat, Event::BasicFormat(_)) => {},
        (Stage::AwaitFormatApplied(_), Event::FormatApplied(_)) => {},
        (Stage::AwaitContext(_), Event::ContextCreated(_)) => {},
        (Stage::AwaitCurrent(_), Event::MadeCurrent(_)) => {},
        (Stage::AwaitLibrary, Event::Library(_)) => {},
        (Stage::AwaitFunctions, Event::FunctionsLoaded) => {},
        (Stage::AwaitEntryPoint, Event::EntryPoint(_)) => {},
        (Stage::AwaitNegotiation, Event::Negotiated { .. }) => {},
        (Stage::AwaitDescription, Event::Described { .. }) => {},
        (Stage::AwaitShown, Event::Shown) => {},
        (Stage::Ready, _) => {},
        (Stage::Failed(_), _) => {},
        _ => {},
    }
}

/// Only the confirmation that the context is current leads on from the
/// wait for it.
pub proof fn activation_needs_confirmation(state: Negotiator, event: Event)
    requires
        state.stage is AwaitCurrent,
        !(advance(state, event).0.stage is Failed),
    ensures
        event == Event::MadeCurrent(true),
{
    reveal(advance);
}

/// A negotiation that the chooser fails, or that matches no format, is
/// given up on the spot.
pub proof fn failed_negotiation_aborts(state: Negotiator, event: Event)
    requires
        state.stage == Stage::AwaitNegotiation,
        event matches Event::Negotiated { accepted, matches, .. } && (!accepted || matches == 0),
    ensures
        advance(state, event) == state.fail(SetupError::NoAcceptableFormat),
{
    reveal(advance);
}

/// Every state of every run is well formed.
pub proof fn run_is_well_formed(events: Seq<Event>, k: nat)
    requires
        k <= events.len(),
    ensures
        well_formed(state_after(events, k)),
    decreases k,
{
    if k > 0 {
        run_is_well_formed(events, (k - 1) as nat);
        step_keeps_well_formed(state_after(events, (k - 1) as nat), events[k - 1]);
    }
}

/// Failure is final: from the first failed state on, the state of a run
/// does not change and every request is the abort for the same reason.
pub proof fn failure_is_final(events: Seq<Event>, i: nat, j: nat)
    requires
        j <= events.len(),
        i <= j,
        state_after(events, i).stage is Failed,
    ensures
        state_after(events, j) == state_after(events, i),
        j > i ==> request_after(events, j) == Action::Abort(
            state_after(events, i).stage->Failed_0,
        ),
    decreases j - i,
{
    if j > i {
        failure_is_final(events, i, (j - 1) as nat);
        step_advances(state_after(events, (j - 1) as nat), events[j - 1]);
    }
}

/// A state that has not failed was reached without failure, one place of
/// the order per event: every earlier state of the run stands at an
/// earlier place, or at the same once the bootstrap is ready.
pub proof fn progress_is_monotonic(events: Seq<Event>, j: nat, k: nat)
    requires
        k <= events.len(),
        j <= k,
        !(state_after(events, k).stage is Failed),
    ensures
        0 <= order(state_after(events, j).stage) <= order(state_after(events, k).stage),
        order(state_after(events, k).stage) <= k,
        order(state_after(events, k).stage) < 22 ==> order(state_after(events, k).stage) - order(
            state_after(events, j).stage,
        ) == k - j,
    decreases k,
{
    if k > 0 {
        let before = state_after(events, (k - 1) as nat);
        step_advances(before, events[k - 1]);
        if j < k {
            progress_is_monotonic(events, j, (k - 1) as nat);
        } else {
            progress_is_monotonic(events, (k - 1) as nat, (k - 1) as nat);
        }
    }
}

/// Extension resolution never precedes an active minimal context: a
/// request that reaches the driver's extensions is issued only after
/// every step of phase one has succeeded, one of them being the request
/// that made the context of the temporary surface current, and while that
/// context is still the current one.
pub proof fn resolution_follows_activation(events: Seq<Event>, k: nat)
    requires
        1 <= k <= events.len(),
        resolves_extensions(request_after(events, k)),
    ensures
        exists|j: nat| j < k && activates_minimal_context(events, j),
        state_after(events, k).current == Some(Role::Temporary),
        state_after(events, k).temporary_context != 0,
        forall|j: nat| j < k ==> succeeds(#[trigger] state_after(events, j), events[j as int]),
{
    let state = state_after(events, k);
    let before = state_after(events, (k - 1) as nat);
    run_is_well_formed(events, k);
    request_tells_stage(before, events[k - 1]);
    // the request was issued at one of the places 10, 11, 12 of the order
    let n = order(state.stage);
    assert(10 <= n <= 12);
    progress_is_monotonic(events, 0, k);
    // the state that stood at place 8 waited for the activation
    let j = (k - (n - 8)) as nat;
    progress_is_monotonic(events, j, k);
    progress_is_monotonic(events, j + 1, k);
    progress_is_monotonic(events, j, j);
    let waiting = state_after(events, j);
    assert(order(waiting.stage) == 8);
    assert(waiting.stage == Stage::AwaitCurrent(Role::Temporary));
    assert(order(state_after(events, j + 1).stage) == 9);
    assert(j >= 1);
    step_issues_awaited(state_after(events, (j - 1) as nat), events[j - 1]);
    activation_needs_confirmation(waiting, events[j as int]);
    assert(activates_minimal_context(events, j));
    unfailed_run_had_only_successes(events, k);
}

/// No surface is created on a failed negotiation: if the extended chooser
/// is answered with failure or with zero matches, every request from then
/// on is the abort, no request of the whole run begins to build the
/// rendering surface, and nothing is known of a rendering surface in the
/// end.
pub proof fn failed_negotiation_creates_no_surface(events: Seq<Event>, k: nat)
    requires
        1 <= k < events.len(),
        request_after(events, k) is ChooseNegotiatedFormat,
        events[k as int] matches Event::Negotiated { accepted, matches, .. } && (!accepted
            || matches == 0),
    ensures
        forall|j: nat|
            k < j <= events.len() ==> #[trigger] request_after(events, j) == Action::Abort(
                SetupError::NoAcceptableFormat,
            ),
        forall|j: nat|
            1 <= j <= events.len() ==> !builds_rendering_surface(
                #[trigger] request_after(events, j),
            ),
        state_after(events, events.len()).stage == Stage::Failed(SetupError::NoAcceptableFormat),
        state_after(events, events.len()).rendering == crate::negotiator::Surface::spec_unknown(),
        state_after(events, events.len()).rendering_context == 0,
{
    let waiting = state_after(events, k);
    request_tells_stage(state_after(events, (k - 1) as nat), events[k - 1]);
    assert(waiting.stage == Stage::AwaitNegotiation);
    run_is_well_formed(events, k);
    failed_negotiation_aborts(waiting, events[k as int]);
    let failed = state_after(events, k + 1);
    assert(failed == waiting.at(Stage::Failed(SetupError::NoAcceptableFormat)));
    assert(request_after(events, k + 1) == Action::Abort(SetupError::NoAcceptableFormat));
    assert forall|j: nat| k < j <= events.len() implies #[trigger] request_after(events, j)
        == Action::Abort(SetupError::NoAcceptableFormat) by {
        if j > k + 1 {
            failure_is_final(events, k + 1, j);
        }
    }
    assert forall|j: nat| 1 <= j <= events.len() implies !builds_rendering_surface(
        #[trigger] request_after(events, j),
    ) by {
        if j <= k {
            progress_is_monotonic(events, j, k);
            request_tells_stage(state_after(events, (j - 1) as nat), events[j - 1]);
        }
    }
    failure_is_final(events, k + 1, events.len());
}

/// A bootstrap under way fails on exactly the events that are not the
/// success of what it waits on.
pub proof fn step_fails_without_success(state: Negotiator, event: Event)
    requires
        !(state.stage is Failed),
        !(state.stage is Ready),
    ensures
        advance(state, event).0.stage is Failed <==> !succeeds(state, event),
{
    reveal(advance);
}

/// The step that completes a bootstrap has nothing more to ask.
pub proof fn completion_is_done(state: Negotiator, event: Event)
    requires
        !(state.stage is Ready),
        advance(state, event).0.stage is Ready,
    ensures
        advance(state, event).1 == Action::Done,
{
    reveal(advance);
}

/// A run that has not failed stands at the place that the number of its
/// events gives, and is ready from the twenty-second event on.
pub proof fn place_counts_events(events: Seq<Event>, k: nat)
    requires
        k <= events.len(),
        !(state_after(events, k).stage is Failed),
    ensures
        order(state_after(events, k).stage) == if k < 22 {
            k as int
        } else {
            22
        },
    decreases k,
{
    if k > 0 {
        let before = state_after(events, (k - 1) as nat);
        step_advances(before, events[k - 1]);
        place_counts_events(events, (k - 1) as nat);
    }
}

/// Success is owed: when the signal to begin and then every answer report
/// success, twenty-two events make the bootstrap ready. The last request
/// before that shows the rendering window, and nothing is asked after it.
pub proof fn successful_run_is_ready(events: Seq<Event>)
    requires
        events.len() >= 22,
        forall|j: nat| j < 22 ==> succeeds(#[trigger] state_after(events, j), events[j as int]),
    ensures
        state_after(events, 22).stage is Ready,
        request_after(events, 21) == (Action::Show {
            window: state_after(events, 22).rendering.window,
        }),
        request_after(events, 22) == Action::Done,
        state_after(events, events.len()) == state_after(events, 22),
{
    successful_prefix_advances(events, 22);
    successful_prefix_advances(events, 21);
    step_issues_awaited(state_after(events, 20), events[20]);
    step_learns_in_turn(state_after(events, 21), events[21]);
    completion_is_done(state_after(events, 21), events[21]);
    ready_is_final(events, 22, events.len());
}

/// As long as every event reports success the run does not fail.
proof fn successful_prefix_advances(events: Seq<Event>, k: nat)
    requires
        k <= 22,
        k <= events.len(),
        forall|j: nat| j < k ==> succeeds(#[trigger] state_after(events, j), events[j as int]),
    ensures
        order(state_after(events, k).stage) == k,
    decreases k,
{
    if k > 0 {
        let before = state_after(events, (k - 1) as nat);
        successful_prefix_advances(events, (k - 1) as nat);
        assert(succeeds(before, events[k - 1]));
        step_fails_without_success(before, events[k - 1]);
        step_advances(before, events[k - 1]);
    }
}

/// A ready bootstrap stays ready, unchanged, and has nothing left to ask.
pub proof fn ready_is_final(events: Seq<Event>, i: nat, j: nat)
    requires
        j <= events.len(),
        i <= j,
        state_after(events, i).stage is Ready,
    ensures
        state_after(events, j) == state_after(events, i),
        j > i ==> request_after(events, j) == Action::Done,
    decreases j - i,
{
    if j > i {
        ready_is_final(events, i, (j - 1) as nat);
        step_advances(state_after(events, (j - 1) as nat), events[j - 1]);
    }
}

/// There is no way round a failed platform call: a run that has not
/// failed has had nothing but successes, up to the event that made it
/// ready.
pub proof fn unfailed_run_had_only_successes(events: Seq<Event>, k: nat)
    requires
        k <= events.len(),
        !(state_after(events, k).stage is Failed),
    ensures
        forall|j: nat|
            j < k && j < 22 ==> succeeds(#[trigger] state_after(events, j), events[j as int]),
        state_after(events, k).stage is Ready <==> k >= 22,
{
    place_counts_events(events, k);
    assert forall|j: nat| j < k && j < 22 implies succeeds(
        #[trigger] state_after(events, j),
        events[j as int],
    ) by {
        progress_is_monotonic(events, j, k);
        progress_is_monotonic(events, j + 1, k);
        place_counts_events(events, j);
        step_fails_without_success(state_after(events, j), events[j as int]);
    }
}

/// What a completed bootstrap holds: two whole surfaces, the temporary one
/// with the basic format, the rendering one with the format that was
/// negotiated, each with a context of its own, and the context of the
/// rendering surface current.
pub proof fn ready_run_holds_both_surfaces(events: Seq<Event>, k: nat)
    requires
        k <= events.len(),
        state_after(events, k).stage is Ready,
    ensures
        state_after(events, k).window() matches Some(window) && window.window_handle != 0
            && window.dc != 0 && window.context != 0,
        state_after(events, k).temporary_window() matches Some(window) && window.window_handle
            != 0 && window.dc != 0 && window.context != 0,
        state_after(events, k).temporary.descriptor == PixelFormatDescriptor::spec_basic(),
        state_after(events, k).current == Some(Role::Rendering),
{
    run_is_well_formed(events, k);
}

/// Each thing is learned at its own stage and kept from then on: a step
/// changes no more of the state than the stage and what the stage waits
/// for.
pub proof fn step_learns_in_turn(state: Negotiator, event: Event)
    ensures
        ({
            let n = order(state.stage);
            let after = advance(state, event).0;
            &&& n != 1 && n != 14 ==> after.instance == state.instance
            &&& n != 3 ==> after.temporary.window == state.temporary.window
            &&& n != 4 ==> after.temporary.dc == state.temporary.dc
            &&& n != 5 ==> after.temporary.format == state.temporary.format
            &&& n != 5 ==> after.temporary.descriptor == state.temporary.descriptor
            &&& n != 7 ==> after.temporary_context == state.temporary_context
            &&& n != 9 ==> after.library == state.library
            &&& n != 11 ==> after.entry_point == state.entry_point
            &&& n != 12 ==> after.rendering.format == state.rendering.format
            &&& n != 13 ==> after.rendering.descriptor == state.rendering.descriptor
            &&& n != 16 ==> after.rendering.window == state.rendering.window
            &&& n != 17 ==> after.rendering.dc == state.rendering.dc
            &&& n != 19 ==> after.rendering_context == state.rendering_context
            &&& n != 8 && n != 20 ==> after.current == state.current
        }),
{
    reveal(advance);
    // one case for each answer in its turn, one for all the others
    match (state.stage, event) {
        (Stage::Idle, Event::Start) => {},
        (Stage::AwaitInstance(_), Event::Instance { .. }) => {},
        (Stage::AwaitClass(_), Event::ClassRegistered { .. }) => {},
        (Stage::AwaitWindow(_), Event::WindowCreated(_)) => {},
        (Stage::AwaitDeviceContext(_), Event::DeviceContext(_)) => {},
        (Stage::AwaitBasicFormat, Event::BasicFormat(_)) => {},
        (Stage::AwaitFormatApplied(_), Event::FormatApplied(_)) => {},
        (Stage::AwaitContext(_), Event::ContextCreated(_)) => {},
        (Stage::AwaitCurrent(_), Event::MadeCurrent(_)) => {},
        (Stage::AwaitLibrary, Event::Library(_)) => {},
        (Stage::AwaitFunctions, Event::FunctionsLoaded) => {},
        (Stage::AwaitEntryPoint, Event::EntryPoint(_)) => {},
        (Stage::AwaitNegotiation, Event::Negotiated { .. }) => {},
        (Stage::AwaitDescription, Event::Described { .. }) => {},
        (Stage::AwaitShown, Event::Shown) => {},
        (Stage::Ready, _) => {},
        (Stage::Failed(_), _) => {},
        _ => {},
    }
}

/// What the negotiation and the description reported is what the state
/// holds right after.
pub proof fn negotiation_is_recorded(state: Negotiator, event: Event)
    requires
        !(advance(state, event).0.stage is Failed),
    ensures
        state.stage == Stage::AwaitNegotiation ==> event is Negotiated && advance(
            state,
            event,
        ).0.rendering.format == event->format,
        state.stage == Stage::AwaitDescription ==> event is Described && advance(
            state,
            event,
        ).0.rendering.descriptor == event->descriptor,
{
    reveal(advance);
}

/// In a run that has not failed, the surfaces keep what they have once
/// they have it: the temporary surface its device context from the fifth
/// event on and the rest from the sixth, the rendering surface the
/// negotiated format from the thirteenth event on, its description from
/// the fourteenth, and the rest from the eighteenth.
pub proof fn surfaces_are_kept(events: Seq<Event>, i: nat, j: nat)
    requires
        j <= events.len(),
        i <= j,
        !(state_after(events, j).stage is Failed),
    ensures
        5 <= i ==> state_after(events, j).temporary.dc == state_after(events, i).temporary.dc,
        6 <= i ==> state_after(events, j).temporary == state_after(events, i).temporary,
        13 <= i ==> state_after(events, j).rendering.format == state_after(
            events,
            i,
        ).rendering.format,
        14 <= i ==> state_after(events, j).rendering.descriptor == state_after(
            events,
            i,
        ).rendering.descriptor,
        18 <= i ==> state_after(events, j).rendering == state_after(events, i).rendering,
    decreases j - i,
{
    if i < j {
        let before = (j - 1) as nat;
        progress_is_monotonic(events, before, j);
        place_counts_events(events, before);
        surfaces_are_kept(events, i, before);
        step_learns_in_turn(state_after(events, before), events[before as int]);
    }
}

/// In a run that has not failed, each request is the one that its place
/// in the order waits on: the `j`-th request is issued by the state at
/// the `j`-th place, up to the twenty-first, which shows the window;
/// nothing is asked after that.
pub proof fn request_has_its_place(events: Seq<Event>, j: nat, k: nat)
    requires
        1 <= j <= k <= events.len(),
        !(state_after(events, k).stage is Failed),
    ensures
        j <= 21 ==> order(state_after(events, j).stage) == j && awaited(state_after(events, j))
            == Some(request_after(events, j)),
        j >= 22 ==> request_after(events, j) is Done,
{
    let before = (j - 1) as nat;
    progress_is_monotonic(events, j, k);
    progress_is_monotonic(events, before, k);
    place_counts_events(events, j);
    place_counts_events(events, before);
    step_issues_awaited(state_after(events, before), events[before as int]);
    step_advances(state_after(events, before), events[before as int]);
    if j == 22 {
        completion_is_done(state_after(events, before), events[before as int]);
    }
}

/// The rendering surface gets its format from the extended chooser, not
/// from the generic one. In a completed bootstrap the generic chooser was
/// asked once, as the fifth request and for the temporary surface with the
/// basic descriptor; a format was applied twice, once to each surface; and
/// the format that the twelfth request negotiated, as the thirteenth had
/// it described, is the one that the eighteenth request applied to the
/// rendering surface, and the one that the surface has.
pub proof fn rendering_format_is_negotiated(events: Seq<Event>, k: nat)
    requires
        k <= events.len(),
        state_after(events, k).stage is Ready,
    ensures
        k >= 22,
        forall|j: nat|
            1 <= j <= k && #[trigger] request_after(events, j) is ChooseBasicFormat ==> j == 5,
        forall|j: nat|
            1 <= j <= k && #[trigger] request_after(events, j) is ApplyFormat ==> j == 6 || j
                == 18,
        request_after(events, 5) == (Action::ChooseBasicFormat {
            dc: state_after(events, k).temporary.dc,
            descriptor: PixelFormatDescriptor::spec_basic(),
        }),
        request_after(events, 12) is ChooseNegotiatedFormat,
        events[12] is Negotiated,
        events[13] is Described,
        state_after(events, k).rendering.format == events[12]->format,
        state_after(events, k).rendering.descriptor == events[13]->descriptor,
        request_after(events, 18) == (Action::ApplyFormat {
            dc: state_after(events, k).rendering.dc,
            format: events[12]->format,
            descriptor: events[13]->descriptor,
        }),
{
    unfailed_run_had_only_successes(events, k);
    assert forall|j: nat| 1 <= j <= k implies (#[trigger] request_after(events, j)
        is ChooseBasicFormat ==> j == 5) && (request_after(events, j) is ApplyFormat ==> j == 6
        || j == 18) by {
        request_has_its_place(events, j, k);
    }
    request_has_its_place(events, 5, k);
    request_has_its_place(events, 12, k);
    request_has_its_place(events, 13, k);
    request_has_its_place(events, 14, k);
    request_has_its_place(events, 18, k);
    negotiation_is_recorded(state_after(events, 12), events[12]);
    negotiation_is_recorded(state_after(events, 13), events[13]);
    surfaces_are_kept(events, 5, k);
    surfaces_are_kept(events, 13, k);
    surfaces_are_kept(events, 14, k);
    surfaces_are_kept(events, 18, k);
    surfaces_are_kept(events, 13, 18);
    surfaces_are_kept(events, 14, 18);
}

/// `events` is a run that `perform` can have produced: it begins with the
/// signal to begin, and each later event is an answer of `perform` to the
/// request that the events before it led to.
pub open spec fn performed_by<P: Fn(Action) -> Event>(perform: &P, events: Seq<Event>) -> bool {
    &&& events.len() >= 1
    &&& events[0] == Event::Start
    &&& forall|k: nat|
        1 <= k < events.len() ==> perform.ensures(
            (#[trigger] request_after(events, k),),
            events[k as int],
        )
}

/// How far a state is from the end of its run: nothing for a bootstrap
/// that has failed or is ready, the number of events still due for one
/// under way.
pub open spec fn steps_left(state: Negotiator) -> nat {
    if state.stage is Failed {
        0
    } else {
        (22 - order(state.stage)) as nat
    }
}

/// A run does not depend on the events that come after its own.
pub proof fn run_ignores_later_events(events: Seq<Event>, longer: Seq<Event>, k: nat)
    requires
        k <= events.len() <= longer.len(),
        forall|i: int| 0 <= i < k ==> events[i] == longer[i],
    ensures
        state_after(longer, k) == state_after(events, k),
        k >= 1 ==> request_after(longer, k) == request_after(events, k),
    decreases k,
{
    if k > 0 {
        run_ignores_later_events(events, longer, (k - 1) as nat);
    }
}

/// Runs a bootstrap to its end: begins, has `perform` carry out each
/// request, and steps with what `perform` answers, until the bootstrap is
/// ready or has failed. What comes back is the last state of that run.
///
/// A failed bootstrap is handed back as it is: the abort is the caller's
/// to carry out.
pub fn bootstrap<P: Fn(Action) -> Event>(perform: &P) -> (end: Negotiator)
    requires
        forall|action: Action|
            !(action is Abort) && !(action is Done) ==> #[trigger] perform.requires((action,)),
    ensures
        end.stage is Ready || end.stage is Failed,
        exists|events: Seq<Event>|
            #![trigger performed_by(perform, events)]
            performed_by(perform, events) && events.len() <= 22 && end == state_after(
                events,
                events.len(),
            ),
{
    let mut negotiator = Negotiator::new();
    let ghost mut events: Seq<Event> = seq![Event::Start];
    let mut action = negotiator.step(Event::Start);
    proof {
        step_is_transition(Negotiator::initial(), Event::Start);
        assert(state_after(events, 0) == Negotiator::initial());
        step_advances(Negotiator::initial(), Event::Start);
    }
    loop
        invariant
            forall|action: Action|
                !(action is Abort) && !(action is Done) ==> #[trigger] perform.requires(
                    (action,),
                ),
            performed_by(perform, events),
            !(state_after(events, (events.len() - 1) as nat).stage is Failed),
            negotiator == state_after(events, events.len()),
            action == request_after(events, events.len()),
            negotiator.stage is Failed <==> action is Abort,
            negotiator.stage is Ready <==> action is Done,
            !(negotiator.stage is Failed) ==> order(negotiator.stage) == events.len(),
        decreases steps_left(negotiator),
    {
        match action {
            Action::Abort(_) => {
                proof {
                    place_of_failure(events, events.len());
                }
                return negotiator;
            },
            Action::Done => {
                return negotiator;
            },
            _ => {
                let event = perform(action);
                let ghost before = events;
                proof {
                    events = events.push(event);
                    run_ignores_later_events(before, events, before.len());
                    assert forall|k: nat| 1 <= k < events.len() implies perform.ensures(
                        (#[trigger] request_after(events, k),),
                        events[k as int],
                    ) by {
                        run_ignores_later_events(before, events, k);
                    }
                    step_is_transition(negotiator, event);
                    step_advances(negotiator, event);
                    if advance(negotiator, event).0.stage is Ready {
                        completion_is_done(negotiator, event);
                    }
                }
                action = negotiator.step(event);
            },
        }
    }
}

/// A failure shows within the first twenty-two events of a run.
proof fn place_of_failure(events: Seq<Event>, k: nat)
    requires
        1 <= k <= events.len(),
        state_after(events, k).stage is Failed,
        !(state_after(events, (k - 1) as nat).stage is Failed),
    ensures
        k <= 22,
{
    let before = (k - 1) as nat;
    place_counts_events(events, before);
    step_advances(state_after(events, before), events[before as int]);
}

} // verus!
