//! What holds of every run of a session.
//!
//! A run is a sequence of events handed to a session one after the other.
//! The functions of this module say what state a run ends in and which
//! actions it asks for, and its proofs state what no run can violate.

use vstd::prelude::*;
use crate::geometry::Geometry;
use crate::session::{
    channel_after, consistent, disconnect_actions, guard_live, initial, rank, release_actions,
    step_spec, ActionView, ChannelOp, ChannelState, EventView, Phase, SessionView,
};
use crate::terminal::TerminalMode;

verus! {

/// Whether a session in state `s` waits for `e`.
pub open spec fn awaited(s: SessionView, e: EventView) -> bool {
    match s.phase {
        Phase::Idle => e is Begin,
        Phase::Resolving => e is Addresses || e is Failed,
        Phase::Connecting => e is Connected || e is Failed,
        Phase::LoadingKey => e is KeyLoaded || e is Failed,
        Phase::Authenticating => e is Authenticated || e is Failed,
        Phase::QueryingRawMode => e is RawMode || e is Failed,
        Phase::EnablingRawMode => e is RawModeEnabled || e is Failed,
        Phase::OpeningChannel => e is ChannelOpened || e is Failed,
        Phase::QueryingTerminal => e is Terminal || e is Failed,
        Phase::RequestingPty => e is PtyGranted || e is Failed,
        Phase::RequestingShell => e is ShellStarted || e is Failed,
        Phase::PollingGeometry => e is Size || e is Failed || e is OutputFailed || e is Terminate,
        Phase::Waiting => e is Input || e is RemoteData || e is RemoteExit || e is RemoteOther
            || e is Failed || e is Terminate,
        Phase::Finished => false,
    }
}

/// The state after a run.
pub open spec fn run_state(s: SessionView, events: Seq<EventView>) -> SessionView
    decreases events.len(),
{
    if events.len() == 0 {
        s
    } else {
        run_state(step_spec(s, events[0]).0, events.drop_first())
    }
}

/// The actions that a run asks for, in order.
pub open spec fn run_actions(s: SessionView, events: Seq<EventView>) -> Seq<ActionView>
    decreases events.len(),
{
    if events.len() == 0 {
        Seq::empty()
    } else {
        step_spec(s, events[0]).1 + run_actions(step_spec(s, events[0]).0, events.drop_first())
    }
}

/// Whether every event of a run is one that the session waits for when it
/// comes.
pub open spec fn conforming(s: SessionView, events: Seq<EventView>) -> bool
    decreases events.len(),
{
    events.len() == 0 || (awaited(s, events[0]) && conforming(
        step_spec(s, events[0]).0,
        events.drop_first(),
    ))
}

/// The two directions in which bytes pass through a session.
pub enum Stream {
    /// From local input to the remote shell.
    Outbound,
    /// From the remote shell to local output.
    Inbound,
}

/// The bytes that an event brings into a stream.
pub open spec fn event_bytes(e: EventView, stream: Stream) -> Seq<u8> {
    match (stream, e) {
        (Stream::Outbound, EventView::Input(bytes)) => bytes,
        (Stream::Inbound, EventView::RemoteData(bytes)) => bytes,
        _ => Seq::empty(),
    }
}

/// The bytes that an action puts out of a stream.
pub open spec fn action_bytes(a: ActionView, stream: Stream) -> Seq<u8> {
    match (stream, a) {
        (Stream::Outbound, ActionView::SendData(bytes)) => bytes,
        (Stream::Inbound, ActionView::Write(bytes)) => bytes,
        _ => Seq::empty(),
    }
}

/// The bytes that a sequence of events brings into a stream, joined in order.
pub open spec fn events_bytes(events: Seq<EventView>, stream: Stream) -> Seq<u8>
    decreases events.len(),
{
    if events.len() == 0 {
        Seq::empty()
    } else {
        event_bytes(events[0], stream) + events_bytes(events.drop_first(), stream)
    }
}

/// The bytes that a sequence of actions puts out of a stream, joined in
/// order.
pub open spec fn actions_bytes(actions: Seq<ActionView>, stream: Stream) -> Seq<u8>
    decreases actions.len(),
{
    if actions.len() == 0 {
        Seq::empty()
    } else {
        actions_bytes(actions.drop_last(), stream) + action_bytes(actions.last(), stream)
    }
}

/// The bytes written to local output that no flush has followed yet, after
/// `actions` were performed with `pending` bytes unflushed before them.
pub open spec fn unflushed(pending: Seq<u8>, actions: Seq<ActionView>) -> Seq<u8>
    decreases actions.len(),
{
    if actions.len() == 0 {
        pending
    } else {
        let before = unflushed(pending, actions.drop_last());
        match actions.last() {
            ActionView::Write(bytes) => before + bytes,
            ActionView::Flush => Seq::empty(),
            _ => before,
        }
    }
}

/// How often a sequence of actions switches raw mode off.
pub open spec fn releases(actions: Seq<ActionView>) -> nat
    decreases actions.len(),
{
    if actions.len() == 0 {
        0
    } else {
        releases(actions.drop_last()) + if actions.last() is DisableRawMode {
            1nat
        } else {
            0nat
        }
    }
}

/// How often a sequence of actions tells the remote side that no input
/// follows.
pub open spec fn eofs(actions: Seq<ActionView>) -> nat
    decreases actions.len(),
{
    if actions.len() == 0 {
        0
    } else {
        eofs(actions.drop_last()) + if actions.last() is SendEof {
            1nat
        } else {
            0nat
        }
    }
}

/// The sizes that a sequence of actions tells the remote side, in order.
pub open spec fn resizes(actions: Seq<ActionView>) -> Seq<Geometry>
    decreases actions.len(),
{
    if actions.len() == 0 {
        Seq::empty()
    } else {
        let before = resizes(actions.drop_last());
        match actions.last() {
            ActionView::Resize(size) => before.push(size),
            _ => before,
        }
    }
}

proof fn lemma_bytes_push(actions: Seq<ActionView>, a: ActionView, stream: Stream)
    ensures
        actions_bytes(actions.push(a), stream) == actions_bytes(actions, stream) + action_bytes(
            a,
            stream,
        ),
{
    assert(actions.push(a).drop_last() =~= actions);
}

proof fn lemma_bytes_concat(x: Seq<ActionView>, y: Seq<ActionView>, stream: Stream)
    ensures
        actions_bytes(x + y, stream) == actions_bytes(x, stream) + actions_bytes(y, stream),
    decreases y.len(),
{
    if y.len() > 0 {
        assert((x + y).drop_last() =~= x + y.drop_last());
        lemma_bytes_concat(x, y.drop_last(), stream);
    }
}

proof fn lemma_releases_concat(x: Seq<ActionView>, y: Seq<ActionView>)
    ensures
        releases(x + y) == releases(x) + releases(y),
    decreases y.len(),
{
    if y.len() > 0 {
        assert((x + y).drop_last() =~= x + y.drop_last());
        lemma_releases_concat(x, y.drop_last());
    }
}

proof fn lemma_eofs_concat(x: Seq<ActionView>, y: Seq<ActionView>)
    ensures
        eofs(x + y) == eofs(x) + eofs(y),
    decreases y.len(),
{
    if y.len() > 0 {
        assert((x + y).drop_last() =~= x + y.drop_last());
        lemma_eofs_concat(x, y.drop_last());
    }
}

proof fn lemma_unflushed_push(pending: Seq<u8>, actions: Seq<ActionView>, a: ActionView)
    ensures
        unflushed(pending, actions.push(a)) == match a {
            ActionView::Write(bytes) => unflushed(pending, actions) + bytes,
            ActionView::Flush => Seq::empty(),
            _ => unflushed(pending, actions),
        },
{
    assert(actions.push(a).drop_last() =~= actions);
}

proof fn lemma_unflushed_concat(pending: Seq<u8>, x: Seq<ActionView>, y: Seq<ActionView>)
    ensures
        unflushed(pending, x + y) == unflushed(unflushed(pending, x), y),
    decreases y.len(),
{
    if y.len() > 0 {
        assert((x + y).drop_last() =~= x + y.drop_last());
        lemma_unflushed_concat(pending, x, y.drop_last());
    }
}

proof fn lemma_resizes_push(actions: Seq<ActionView>, a: ActionView)
    ensures
        resizes(actions.push(a)) == match a {
            ActionView::Resize(size) => resizes(actions).push(size),
            _ => resizes(actions),
        },
{
    assert(actions.push(a).drop_last() =~= actions);
}

proof fn lemma_bytes_absent(actions: Seq<ActionView>, stream: Stream)
    requires
        forall|i: int| 0 <= i < actions.len() ==> action_bytes(#[trigger] actions[i], stream).len() == 0,
    ensures
        actions_bytes(actions, stream) == Seq::<u8>::empty(),
    decreases actions.len(),
{
    if actions.len() > 0 {
        lemma_bytes_absent(actions.drop_last(), stream);
    }
}

proof fn lemma_releases_absent(actions: Seq<ActionView>)
    requires
        forall|i: int| 0 <= i < actions.len() ==> !(#[trigger] actions[i] is DisableRawMode),
    ensures
        releases(actions) == 0,
    decreases actions.len(),
{
    if actions.len() > 0 {
        lemma_releases_absent(actions.drop_last());
    }
}

proof fn lemma_releases_single(actions: Seq<ActionView>, k: int)
    requires
        0 <= k < actions.len(),
        forall|i: int| 0 <= i < actions.len() ==> (#[trigger] actions[i] is DisableRawMode <==> i == k),
    ensures
        releases(actions) == 1,
    decreases actions.len(),
{
    if k == actions.len() - 1 {
        lemma_releases_absent(actions.drop_last());
    } else {
        lemma_releases_single(actions.drop_last(), k);
    }
}

proof fn lemma_eofs_absent(actions: Seq<ActionView>)
    requires
        forall|i: int| 0 <= i < actions.len() ==> !(#[trigger] actions[i] is SendEof),
    ensures
        eofs(actions) == 0,
    decreases actions.len(),
{
    if actions.len() > 0 {
        lemma_eofs_absent(actions.drop_last());
    }
}

proof fn lemma_eofs_single(actions: Seq<ActionView>, k: int)
    requires
        0 <= k < actions.len(),
        forall|i: int| 0 <= i < actions.len() ==> (#[trigger] actions[i] is SendEof <==> i == k),
    ensures
        eofs(actions) == 1,
    decreases actions.len(),
{
    if k == actions.len() - 1 {
        lemma_eofs_absent(actions.drop_last());
    } else {
        lemma_eofs_single(actions.drop_last(), k);
    }
}

proof fn lemma_unflushed_absent(pending: Seq<u8>, actions: Seq<ActionView>)
    requires
        forall|i: int|
            0 <= i < actions.len() ==> !(#[trigger] actions[i] is Write) && !(actions[i] is Flush),
    ensures
        unflushed(pending, actions) == pending,
    decreases actions.len(),
{
    if actions.len() > 0 {
        lemma_unflushed_absent(pending, actions.drop_last());
    }
}

proof fn lemma_resizes_absent(actions: Seq<ActionView>)
    requires
        forall|i: int| 0 <= i < actions.len() ==> !(#[trigger] actions[i] is Resize),
    ensures
        resizes(actions) == Seq::<Geometry>::empty(),
    decreases actions.len(),
{
    if actions.len() > 0 {
        lemma_resizes_absent(actions.drop_last());
    }
}

/// A session that has not begun is in a consistent state.
pub proof fn law_initial_consistent(server: crate::model::ServerView, key_path: Seq<char>)
    ensures
        consistent(initial(server, key_path)),
{
}

/// Every step leads from a consistent state to a consistent state.
pub proof fn law_step_consistent(s: SessionView, e: EventView)
    requires
        consistent(s),
    ensures
        consistent(step_spec(s, e).0),
{
}

/// Every run leads from a consistent state to a consistent state.
pub proof fn law_run_consistent(s: SessionView, events: Seq<EventView>)
    requires
        consistent(s),
    ensures
        consistent(run_state(s, events)),
    decreases events.len(),
{
    if events.len() > 0 {
        law_step_consistent(s, events[0]);
        law_run_consistent(step_spec(s, events[0]).0, events.drop_first());
    }
}

/// A session that is over stays as it is and asks for nothing, whatever
/// it is told.
pub proof fn law_finished_is_final(s: SessionView, events: Seq<EventView>)
    requires
        s.phase == Phase::Finished,
    ensures
        run_state(s, events) == s,
        run_actions(s, events) == Seq::<ActionView>::empty(),
    decreases events.len(),
{
    if events.len() > 0 {
        law_finished_is_final(s, events.drop_first());
    }
}

/// The pump learns the size of the local terminal at the start of each
/// round. A size that differs from the one the remote side was told last is
/// sent to it exactly once and becomes the stored one; a size that does not
/// differ is not sent.
pub proof fn law_resize_on_change(s: SessionView, size: Geometry)
    requires
        s.phase == Phase::PollingGeometry,
    ensures
        s.geometry != Some(size) ==> resizes(step_spec(s, EventView::Size(size)).1) == seq![size],
        s.geometry == Some(size) ==> resizes(step_spec(s, EventView::Size(size)).1)
            == Seq::<Geometry>::empty(),
        step_spec(s, EventView::Size(size)).0.geometry == Some(size),
{
    let none = Seq::<ActionView>::empty();
    lemma_resizes_push(none, ActionView::Wait);
    lemma_resizes_push(none, ActionView::Resize(size));
    lemma_resizes_push(none.push(ActionView::Resize(size)), ActionView::Wait);
    assert(seq![ActionView::Resize(size), ActionView::Wait] =~= none.push(
        ActionView::Resize(size),
    ).push(ActionView::Wait));
}

/// No step but the one that learns of a changed size tells the remote side a
/// size, and between the request for the pseudo-terminal and the end of the
/// session no other step changes the stored one.
pub proof fn law_resize_only_on_change(s: SessionView, e: EventView)
    requires
        !(s.phase == Phase::PollingGeometry && e is Size),
    ensures
        resizes(step_spec(s, e).1) == Seq::<Geometry>::empty(),
        s.phase != Phase::QueryingTerminal ==> step_spec(s, e).0.geometry == s.geometry,
{
    lemma_resizes_absent(step_spec(s, e).1);
}

proof fn lemma_step_bytes(s: SessionView, e: EventView, stream: Stream)
    requires
        awaited(s, e),
    ensures
        actions_bytes(step_spec(s, e).1, stream) == event_bytes(e, stream),
{
    let none = Seq::<ActionView>::empty();
    let actions = step_spec(s, e).1;
    if s.phase == Phase::Waiting && e is Input && e->Input_0.len() > 0 {
        let data = ActionView::SendData(e->Input_0);
        lemma_bytes_push(none, data, stream);
        lemma_bytes_push(none.push(data), ActionView::QuerySize, stream);
    } else if s.phase == Phase::Waiting && e is RemoteData {
        let data = ActionView::Write(e->RemoteData_0);
        lemma_bytes_push(none, data, stream);
        lemma_bytes_push(none.push(data), ActionView::Flush, stream);
        lemma_bytes_push(none.push(data).push(ActionView::Flush), ActionView::QuerySize, stream);
        assert(actions =~= none.push(data).push(ActionView::Flush).push(ActionView::QuerySize));
    } else {
        lemma_bytes_absent(actions, stream);
    }
}

/// Bytes pass through a session unchanged, in both directions. In a run in
/// which every event is one the session waits for, the bytes sent to the
/// remote shell, joined in order, are the bytes read from local input, joined
/// in order; and the bytes written to local output are the bytes that the
/// remote side sent. Nothing is dropped, repeated or reordered.
pub proof fn law_bytes_pass_through(s: SessionView, events: Seq<EventView>, stream: Stream)
    requires
        conforming(s, events),
    ensures
        actions_bytes(run_actions(s, events), stream) == events_bytes(events, stream),
    decreases events.len(),
{
    if events.len() > 0 {
        let next = step_spec(s, events[0]);
        lemma_step_bytes(s, events[0], stream);
        law_bytes_pass_through(next.0, events.drop_first(), stream);
        lemma_bytes_concat(next.1, run_actions(next.0, events.drop_first()), stream);
    }
}

/// Whatever is written to local output in a step is flushed in the same
/// step: no step leaves bytes unflushed.
pub proof fn law_step_flushes(s: SessionView, e: EventView)
    ensures
        unflushed(Seq::empty(), step_spec(s, e).1) == Seq::<u8>::empty(),
{
    let none = Seq::<ActionView>::empty();
    let pending = Seq::<u8>::empty();
    let actions = step_spec(s, e).1;
    if s.phase == Phase::Waiting && e is RemoteData {
        let data = ActionView::Write(e->RemoteData_0);
        lemma_unflushed_push(pending, none, data);
        lemma_unflushed_push(pending, none.push(data), ActionView::Flush);
        lemma_unflushed_push(pending, none.push(data).push(ActionView::Flush), ActionView::QuerySize);
        assert(actions =~= none.push(data).push(ActionView::Flush).push(ActionView::QuerySize));
    } else {
        lemma_unflushed_absent(pending, actions);
    }
}

/// No run leaves bytes unflushed.
pub proof fn law_run_flushes(s: SessionView, events: Seq<EventView>)
    ensures
        unflushed(Seq::empty(), run_actions(s, events)) == Seq::<u8>::empty(),
    decreases events.len(),
{
    if events.len() > 0 {
        let next = step_spec(s, events[0]);
        law_step_flushes(s, events[0]);
        law_run_flushes(next.0, events.drop_first());
        lemma_unflushed_concat(Seq::empty(), next.1, run_actions(next.0, events.drop_first()));
    }
}

proof fn lemma_step_releases(s: SessionView, e: EventView)
    ensures
        releases(step_spec(s, e).1) <= 1,
        releases(step_spec(s, e).1) == 1 ==> guard_live(s) && step_spec(s, e).0.phase
            == Phase::Finished,
        releases(step_spec(s, e).1) == 1 <==> step_spec(s, e).1.contains(ActionView::DisableRawMode),
{
    let actions = step_spec(s, e).1;
    if exists|k: int| 0 <= k < actions.len() && actions[k] is DisableRawMode {
        let k = choose|k: int| 0 <= k < actions.len() && actions[k] is DisableRawMode;
        lemma_releases_single(actions, k);
    } else {
        lemma_releases_absent(actions);
    }
}

/// Raw mode is given back at most once in a run, however the run ends and
/// whatever the session is told after it has ended.
pub proof fn law_release_at_most_once(s: SessionView, events: Seq<EventView>)
    ensures
        releases(run_actions(s, events)) <= 1,
        releases(run_actions(s, events)) == 1 ==> run_state(s, events).phase == Phase::Finished,
    decreases events.len(),
{
    if events.len() > 0 {
        let next = step_spec(s, events[0]);
        let rest = events.drop_first();
        lemma_step_releases(s, events[0]);
        law_release_at_most_once(next.0, rest);
        lemma_releases_concat(next.1, run_actions(next.0, rest));
        if next.0.phase == Phase::Finished {
            law_finished_is_final(next.0, rest);
        }
    }
}

/// Acquiring raw mode on a terminal that is in raw mode already switches
/// nothing: the session goes on to open the channel.
pub proof fn law_acquire_when_raw_switches_nothing(s: SessionView)
    requires
        s.phase == Phase::QueryingRawMode,
    ensures
        step_spec(s, EventView::RawMode(true)).1 == seq![ActionView::OpenChannel],
        guard_live(step_spec(s, EventView::RawMode(true)).0),
{
}

proof fn lemma_step_eofs(s: SessionView, e: EventView)
    ensures
        eofs(step_spec(s, e).1) <= 1,
        eofs(step_spec(s, e).1) == 1 ==> step_spec(s, e).0.phase == Phase::Finished,
{
    let actions = step_spec(s, e).1;
    if exists|k: int| 0 <= k < actions.len() && actions[k] is SendEof {
        let k = choose|k: int| 0 <= k < actions.len() && actions[k] is SendEof;
        lemma_eofs_single(actions, k);
    } else {
        lemma_eofs_absent(actions);
    }
}

/// The remote side is told at most once in a run that no input follows.
pub proof fn law_eof_at_most_once(s: SessionView, events: Seq<EventView>)
    ensures
        eofs(run_actions(s, events)) <= 1,
        eofs(run_actions(s, events)) == 1 ==> run_state(s, events).phase == Phase::Finished,
    decreases events.len(),
{
    if events.len() > 0 {
        let next = step_spec(s, events[0]);
        let rest = events.drop_first();
        lemma_step_eofs(s, events[0]);
        law_eof_at_most_once(next.0, rest);
        lemma_eofs_concat(next.1, run_actions(next.0, rest));
        if next.0.phase == Phase::Finished {
            law_finished_is_final(next.0, rest);
        }
    }
}

/// Raw mode is given back before the closing notice is written: in the
/// actions of a step, the switch to cooked mode never stands behind the
/// notice, and a step that writes the notice leaves no raw mode owned.
pub proof fn law_release_before_notice(s: SessionView, e: EventView, i: int, j: int)
    requires
        0 <= i < step_spec(s, e).1.len(),
        0 <= j < step_spec(s, e).1.len(),
        step_spec(s, e).1[i] is Notice,
        step_spec(s, e).1[j] is DisableRawMode,
    ensures
        j < i,
        !guard_live(step_spec(s, e).0),
{
    let actions = step_spec(s, e).1;
    let release = release_actions(s);
    let notice = ActionView::Notice(crate::session::notice_text(s.server.host));
    if s.phase == Phase::Waiting && e is RemoteExit {
        let middle = seq![notice, ActionView::SendEof];
        assert(middle.len() == 2 && middle[0] == notice && middle[1] == ActionView::SendEof);
        assert(actions == release + middle + disconnect_actions(s));
        assert(forall|k: int| 0 <= k < release.len() ==> actions[k] == release[k]);
        assert(forall|k: int|
            release.len() <= k < actions.len() ==> !(#[trigger] actions[k] is DisableRawMode));
    } else if (s.phase == Phase::Waiting || s.phase == Phase::PollingGeometry) && e is Terminate {
        let middle = seq![notice, ActionView::Exit];
        assert(middle.len() == 2 && middle[0] == notice && middle[1] == ActionView::Exit);
        assert(actions == release + middle);
        assert(forall|k: int| 0 <= k < release.len() ==> actions[k] == release[k]);
        assert(forall|k: int|
            release.len() <= k < actions.len() ==> !(#[trigger] actions[k] is DisableRawMode));
    } else {
        assert(forall|k: int| 0 <= k < actions.len() ==> !(#[trigger] actions[k] is Notice));
    }
}

/// The mode of the local terminal after the caller has reported `e` to a
/// session in state `s` and performed the actions of the step. The report
/// that raw mode was switched on means that the terminal is in raw mode; the
/// action that gives raw mode back leaves it in cooked mode.
pub open spec fn mode_after(mode: TerminalMode, s: SessionView, e: EventView) -> TerminalMode {
    if step_spec(s, e).1.contains(ActionView::DisableRawMode) {
        TerminalMode::Cooked
    } else if s.phase == Phase::EnablingRawMode && e is RawModeEnabled {
        TerminalMode::Raw
    } else {
        mode
    }
}

/// Whether `e` says of the terminal's mode what is the case.
pub open spec fn truthful(mode: TerminalMode, s: SessionView, e: EventView) -> bool {
    s.phase == Phase::QueryingRawMode ==> (e matches EventView::RawMode(active) ==> active == (mode
        == TerminalMode::Raw))
}

/// The mode of the local terminal after a run.
pub open spec fn run_mode(mode: TerminalMode, s: SessionView, events: Seq<EventView>) -> TerminalMode
    decreases events.len(),
{
    if events.len() == 0 {
        mode
    } else {
        run_mode(mode_after(mode, s, events[0]), step_spec(s, events[0]).0, events.drop_first())
    }
}

/// Whether every report on the terminal's mode in a run is truthful.
pub open spec fn truthful_run(mode: TerminalMode, s: SessionView, events: Seq<EventView>) -> bool
    decreases events.len(),
{
    events.len() == 0 || (truthful(mode, s, events[0]) && truthful_run(
        mode_after(mode, s, events[0]),
        step_spec(s, events[0]).0,
        events.drop_first(),
    ))
}

/// How the mode of the terminal follows the guard of a session that found
/// the terminal in mode `before`.
pub open spec fn mode_tracks(mode: TerminalMode, before: TerminalMode, s: SessionView) -> bool {
    match s.guard {
        None => mode == before,
        Some(g) => if !g.live() {
            mode == TerminalMode::Cooked
        } else if s.phase == Phase::EnablingRawMode {
            mode == TerminalMode::Cooked && before == TerminalMode::Cooked
        } else {
            mode == TerminalMode::Raw
        },
    }
}

proof fn lemma_step_mode(mode: TerminalMode, before: TerminalMode, s: SessionView, e: EventView)
    requires
        consistent(s),
        mode_tracks(mode, before, s),
        truthful(mode, s, e),
    ensures
        mode_tracks(mode_after(mode, s, e), before, step_spec(s, e).0),
{
    let actions = step_spec(s, e).1;
    lemma_step_releases(s, e);
    // a step that ends a session which owns raw mode gives it back: behind
    // the end of input where that ended the session, first of all otherwise
    if guard_live(s) && step_spec(s, e).0.phase == Phase::Finished && s.phase
        != Phase::EnablingRawMode {
        assert(release_actions(s)[0] == ActionView::DisableRawMode);
        if e is Input {
            assert(actions[1] == ActionView::DisableRawMode);
        } else {
            assert(actions[0] == ActionView::DisableRawMode);
        }
    }
}

proof fn lemma_run_mode(
    mode: TerminalMode,
    before: TerminalMode,
    s: SessionView,
    events: Seq<EventView>,
)
    requires
        consistent(s),
        mode_tracks(mode, before, s),
        truthful_run(mode, s, events),
    ensures
        mode_tracks(run_mode(mode, s, events), before, run_state(s, events)),
        consistent(run_state(s, events)),
    decreases events.len(),
{
    if events.len() > 0 {
        lemma_step_mode(mode, before, s, events[0]);
        law_step_consistent(s, events[0]);
        lemma_run_mode(
            mode_after(mode, s, events[0]),
            before,
            step_spec(s, events[0]).0,
            events.drop_first(),
        );
    }
}

/// Where a session that owned raw mode is over, the local terminal is in
/// cooked mode, however the session ended: by the end of local input, by the
/// exit of the remote shell, by a request to terminate or by an error. Where
/// it ended before it owned raw mode, the terminal is in the mode it was in.
pub proof fn law_terminal_after_session(
    server: crate::model::ServerView,
    key_path: Seq<char>,
    before: TerminalMode,
    events: Seq<EventView>,
)
    requires
        truthful_run(before, initial(server, key_path), events),
        run_state(initial(server, key_path), events).phase == Phase::Finished,
    ensures
        run_state(initial(server, key_path), events).guard is Some ==> run_mode(
            before,
            initial(server, key_path),
            events,
        ) == TerminalMode::Cooked,
        run_state(initial(server, key_path), events).guard is None ==> run_mode(
            before,
            initial(server, key_path),
            events,
        ) == before,
{
    lemma_run_mode(before, before, initial(server, key_path), events);
}

/// A session that found the local terminal in cooked mode leaves it in
/// cooked mode, however it ended.
pub proof fn law_terminal_restored(
    server: crate::model::ServerView,
    key_path: Seq<char>,
    events: Seq<EventView>,
)
    requires
        truthful_run(TerminalMode::Cooked, initial(server, key_path), events),
        run_state(initial(server, key_path), events).phase == Phase::Finished,
    ensures
        run_mode(TerminalMode::Cooked, initial(server, key_path), events) == TerminalMode::Cooked,
{
    law_terminal_after_session(server, key_path, TerminalMode::Cooked, events);
}

/// What an event tells was done to the channel.
pub open spec fn confirmed_op(s: SessionView, e: EventView) -> Option<ChannelOp> {
    if s.phase == Phase::OpeningChannel && e is ChannelOpened {
        Some(ChannelOp::Open)
    } else if s.phase == Phase::RequestingPty && e is PtyGranted {
        Some(ChannelOp::RequestPty)
    } else if s.phase == Phase::RequestingShell && e is ShellStarted {
        Some(ChannelOp::RequestShell)
    } else if s.phase == Phase::Waiting && e is RemoteExit {
        Some(ChannelOp::RemoteExit)
    } else {
        None
    }
}

/// What an action does to the channel of an active shell.
pub open spec fn requested_op(a: ActionView) -> Option<ChannelOp> {
    match a {
        ActionView::SendData(_) => Some(ChannelOp::Data),
        ActionView::Resize(_) => Some(ChannelOp::Resize),
        ActionView::SendEof => Some(ChannelOp::Eof),
        _ => None,
    }
}

/// Whether a step ends a session whose channel was opened, and so closes the
/// channel.
pub open spec fn closing_op(s: SessionView, e: EventView) -> Option<ChannelOp> {
    if s.phase != Phase::Finished && step_spec(s, e).0.phase == Phase::Finished && s.channel
        != ChannelState::Unopened {
        Some(ChannelOp::Close)
    } else {
        None
    }
}

/// The channel after one more thing was done to it, if anything was;
/// `None` once something was out of place.
pub open spec fn channel_then(c: Option<ChannelState>, op: Option<ChannelOp>) -> Option<
    ChannelState,
> {
    match (c, op) {
        (Some(state), Some(op)) => channel_after(state, op),
        (c, None) => c,
        (None, _) => None,
    }
}

/// The channel after what a sequence of actions does to it, in order.
pub open spec fn channel_through(c: Option<ChannelState>, actions: Seq<ActionView>) -> Option<
    ChannelState,
>
    decreases actions.len(),
{
    if actions.len() == 0 {
        c
    } else {
        channel_then(channel_through(c, actions.drop_last()), requested_op(actions.last()))
    }
}

/// The channel after a step: after what the event tells, what the actions
/// do, and the close at the end of the session.
pub open spec fn channel_through_step(s: SessionView, e: EventView) -> Option<ChannelState> {
    channel_then(
        channel_through(channel_then(Some(s.channel), confirmed_op(s, e)), step_spec(s, e).1),
        closing_op(s, e),
    )
}

proof fn lemma_through_absent(c: Option<ChannelState>, actions: Seq<ActionView>)
    requires
        forall|i: int| 0 <= i < actions.len() ==> requested_op(#[trigger] actions[i]) is None,
    ensures
        channel_through(c, actions) == c,
    decreases actions.len(),
{
    if actions.len() > 0 {
        lemma_through_absent(c, actions.drop_last());
    }
}

proof fn lemma_through_single(c: Option<ChannelState>, actions: Seq<ActionView>, k: int)
    requires
        0 <= k < actions.len(),
        forall|i: int|
            0 <= i < actions.len() && i != k ==> requested_op(#[trigger] actions[i]) is None,
    ensures
        channel_through(c, actions) == channel_then(c, requested_op(actions[k])),
    decreases actions.len(),
{
    if k == actions.len() - 1 {
        lemma_through_absent(c, actions.drop_last());
    } else {
        lemma_through_single(c, actions.drop_last(), k);
    }
}

/// A session leads its channel along the course of a shell channel and
/// nowhere else: in every step from a consistent state, what the event
/// tells, what the actions do and the close at the end are each in place,
/// and lead to the channel state after the step.
pub proof fn law_channel_keeps_its_course(s: SessionView, e: EventView)
    requires
        consistent(s),
    ensures
        channel_through_step(s, e) == Some(step_spec(s, e).0.channel),
{
    let actions = step_spec(s, e).1;
    let start = channel_then(Some(s.channel), confirmed_op(s, e));
    if exists|k: int| 0 <= k < actions.len() && requested_op(actions[k]) is Some {
        let k = choose|k: int| 0 <= k < actions.len() && requested_op(actions[k]) is Some;
        lemma_through_single(start, actions, k);
    } else {
        lemma_through_absent(start, actions);
    }
}

/// Whether an action is a question to the outside world: one whose answer is
/// the next event.
pub open spec fn asks(a: ActionView) -> bool {
    match a {
        ActionView::Lookup(_) => true,
        ActionView::Connect { .. } => true,
        ActionView::AuthenticatePassword { .. } => true,
        ActionView::LoadKey { .. } => true,
        ActionView::AuthenticateKey { .. } => true,
        ActionView::QueryRawMode => true,
        ActionView::EnableRawMode => true,
        ActionView::OpenChannel => true,
        ActionView::QueryTerminal => true,
        ActionView::RequestPty { .. } => true,
        ActionView::RequestShell => true,
        ActionView::QuerySize => true,
        ActionView::Wait => true,
        _ => false,
    }
}

/// The question that a session in a phase waits for the answer to.
pub open spec fn question_in(p: Phase, a: ActionView) -> bool {
    match p {
        Phase::Idle => false,
        Phase::Resolving => a is Lookup,
        Phase::Connecting => a is Connect,
        Phase::LoadingKey => a is LoadKey,
        Phase::Authenticating => a is AuthenticatePassword || a is AuthenticateKey,
        Phase::QueryingRawMode => a is QueryRawMode,
        Phase::EnablingRawMode => a is EnableRawMode,
        Phase::OpeningChannel => a is OpenChannel,
        Phase::QueryingTerminal => a is QueryTerminal,
        Phase::RequestingPty => a is RequestPty,
        Phase::RequestingShell => a is RequestShell,
        Phase::PollingGeometry => a is QuerySize,
        Phase::Waiting => a is Wait,
        Phase::Finished => false,
    }
}

/// A session never leaves its caller without a question, and never asks
/// two. A step on an event that the session waits for either ends the
/// session, and then asks nothing, or ends with the one question that the
/// next phase waits for the answer to.
pub proof fn law_step_asks_one_question(s: SessionView, e: EventView)
    requires
        awaited(s, e),
    ensures
        step_spec(s, e).0.phase == Phase::Finished ==> forall|i: int|
            0 <= i < step_spec(s, e).1.len() ==> !asks(#[trigger] step_spec(s, e).1[i]),
        step_spec(s, e).0.phase != Phase::Finished ==> {
            &&& step_spec(s, e).1.len() > 0
            &&& question_in(step_spec(s, e).0.phase, step_spec(s, e).1.last())
            &&& forall|i: int|
                0 <= i < step_spec(s, e).1.len() - 1 ==> !asks(#[trigger] step_spec(s, e).1[i])
        },
{
    if s.phase == Phase::PollingGeometry && e is Size {
        let size = e->Size_0;
        let two = seq![ActionView::Resize(size), ActionView::Wait];
        assert(two.len() == 2 && two[0] == ActionView::Resize(size) && two[1] == ActionView::Wait);
    } else if s.phase == Phase::Waiting && e is RemoteData {
        let bytes = e->RemoteData_0;
        let two = seq![ActionView::Write(bytes), ActionView::Flush];
        assert(two.len() == 2 && two[0] == ActionView::Write(bytes) && two[1] == ActionView::Flush);
    } else if s.phase == Phase::Waiting && e is RemoteExit {
        let notice = ActionView::Notice(crate::session::notice_text(s.server.host));
        let two = seq![notice, ActionView::SendEof];
        assert(two.len() == 2 && two[0] == notice && two[1] == ActionView::SendEof);
    } else if e is Terminate {
        let notice = ActionView::Notice(crate::session::notice_text(s.server.host));
        let two = seq![notice, ActionView::Exit];
        assert(two.len() == 2 && two[0] == notice && two[1] == ActionView::Exit);
    }
}

/// A session runs forward. Before the pump, a step on an event that the
/// session waits for leads to a later phase, so that every request of the
/// setup is made at most once; in the pump, a step leads to the other phase
/// of the pump or to the end; and whatever the event, no step leads back
/// from the pump to the setup or from the end to anything.
pub proof fn law_session_runs_forward(s: SessionView, e: EventView)
    ensures
        awaited(s, e) && rank(s.phase) < rank(Phase::PollingGeometry) ==> rank(
            step_spec(s, e).0.phase,
        ) > rank(s.phase),
        awaited(s, e) && s.phase == Phase::PollingGeometry ==> step_spec(s, e).0.phase
            == Phase::Waiting || step_spec(s, e).0.phase == Phase::Finished,
        awaited(s, e) && s.phase == Phase::Waiting ==> step_spec(s, e).0.phase
            == Phase::PollingGeometry || step_spec(s, e).0.phase == Phase::Finished,
        rank(s.phase) >= rank(Phase::PollingGeometry) ==> rank(step_spec(s, e).0.phase) >= rank(
            Phase::PollingGeometry,
        ),
        !awaited(s, e) ==> step_spec(s, e).0 == s && step_spec(s, e).1 == Seq::<
            ActionView,
        >::empty(),
{
}

} // verus!
