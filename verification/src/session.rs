//! A whole watch, seen from outside: the watcher's phase and the port cell
//! together, and what a sequence of events makes of them. Nothing here runs;
//! these are the statements that hold of every watch, proved from the
//! watcher's rules.

use crate::readiness::{
    all_white_space,
    decimal_digits,
    lemma_ready_line_announces,
    lemma_ready_prefix_bytes,
    ready_port,
    ready_prefix,
    ready_prefix_bytes,
};
use crate::state::{not_ready_message, query_outcome};
use crate::text::{decoded, lemma_decoded_encoding, lemma_prefix_of_decoded};
use crate::watcher::{
    next_phase,
    next_port,
    report,
    silent,
    step_for,
    NoticeView,
    Phase,
    SidecarEventView,
    StepView,
};
use vstd::prelude::*;
use vstd::utf8::{encode_utf8, valid_utf8};

verus! {

/// The watcher's phase and what the port cell holds.
pub struct Session {
    pub phase: Phase,
    pub port: Option<u16>,
}

/// Where every watch begins: nothing done, the cell empty.
pub open spec fn start() -> Session {
    Session { phase: Phase::Idle, port: None }
}

/// The session after one event.
pub open spec fn after(session: Session, event: SidecarEventView) -> Session {
    Session {
        phase: next_phase(session.phase, event),
        port: next_port(session.phase, session.port, event),
    }
}

/// The session after a sequence of events, taken in order.
pub open spec fn after_all(session: Session, events: Seq<SidecarEventView>) -> Session
    decreases events.len(),
{
    if events.len() == 0 {
        session
    } else {
        after(after_all(session, events.drop_last()), events.last())
    }
}

/// The port that an event announces: that of a readiness line on standard
/// output, and none for any other event.
pub open spec fn announced(event: SidecarEventView) -> Option<u16> {
    match event {
        SidecarEventView::Stdout(line) => ready_port(decoded(line)),
        _ => None,
    }
}

/// Whether no event of the sequence announces a port.
pub open spec fn none_announced(events: Seq<SidecarEventView>) -> bool {
    forall|i: int| 0 <= i < events.len() ==> announced(#[trigger] events[i]) is None
}

/// The ports for which a notification is asked over a sequence of events,
/// in the order in which they are asked.
pub open spec fn notified(session: Session, events: Seq<SidecarEventView>) -> Seq<u16>
    decreases events.len(),
{
    if events.len() == 0 {
        Seq::empty()
    } else {
        let earlier = notified(session, events.drop_last());
        let phase = after_all(session, events.drop_last()).phase;
        match step_for(phase, events.last()).ready {
            Some(port) => earlier.push(port),
            None => earlier,
        }
    }
}

/// The bytes of a readiness line for `port`: the marker, then the port in
/// decimal with the whitespace `left` before it and `right` after it.
pub open spec fn ready_line(port: u16, left: Seq<char>, right: Seq<char>) -> Seq<u8> {
    encode_utf8(ready_prefix() + left + decimal_digits(port as nat) + right)
}

/// Events taken one after another are events taken together.
pub proof fn lemma_after_all_concat(
    session: Session,
    first: Seq<SidecarEventView>,
    second: Seq<SidecarEventView>,
)
    ensures
        after_all(session, first + second) == after_all(after_all(session, first), second),
    decreases second.len(),
{
    if second.len() > 0 {
        assert((first + second).drop_last() =~= first + second.drop_last());
        lemma_after_all_concat(session, first, second.drop_last());
    }
}

/// For every port, a readiness line for it that arrives while the child is
/// watched makes the cell hold exactly that port, asks for exactly one
/// notification, which carries that port, and leaves the watch running.
pub proof fn lemma_ready_line_publishes(
    held: Option<u16>,
    port: u16,
    left: Seq<char>,
    right: Seq<char>,
)
    requires
        all_white_space(left),
        all_white_space(right),
    ensures
        after(
            Session { phase: Phase::Watching, port: held },
            SidecarEventView::Stdout(ready_line(port, left, right)),
        ) == (Session { phase: Phase::Watching, port: Some(port) }),
        step_for(Phase::Watching, SidecarEventView::Stdout(ready_line(port, left, right))) == (
        StepView { notice: Some(NoticeView::Ready(port)), ready: Some(port) }),
{
    lemma_ready_line_announces(port, left, right);
    lemma_decoded_encoding(ready_prefix() + left + decimal_digits(port as nat) + right);
}

/// A line of standard output that is no readiness line (the marker is
/// missing, or what follows it is no 16-bit number) leaves the cell as it is
/// and asks for no notification, in whatever phase it arrives. While the
/// child is watched it is reported as output of the backend, unless it is
/// empty.
pub proof fn lemma_other_line_is_output(session: Session, line: Seq<u8>)
    requires
        ready_port(decoded(line)) is None,
    ensures
        after(session, SidecarEventView::Stdout(line)) == session,
        step_for(session.phase, SidecarEventView::Stdout(line)).ready is None,
        session.phase == Phase::Watching ==> step_for(
            session.phase,
            SidecarEventView::Stdout(line),
        ) == if decoded(line).len() > 0 {
            report(NoticeView::Output(decoded(line)))
        } else {
            silent()
        },
{
}

/// A line of standard output that does not start with the marker never
/// changes the cell, whatever else it holds.
pub proof fn lemma_unmarked_line_keeps_cell(session: Session, line: Seq<u8>)
    requires
        !ready_prefix().is_prefix_of(decoded(line)),
    ensures
        after(session, SidecarEventView::Stdout(line)).port == session.port,
        step_for(session.phase, SidecarEventView::Stdout(line)).ready is None,
{
}

/// A line of valid UTF-8 that does not start with the bytes of the marker
/// never changes the cell, whatever else it holds.
pub proof fn lemma_unmarked_bytes_keep_cell(session: Session, line: Seq<u8>)
    requires
        valid_utf8(line),
        !ready_prefix_bytes().is_prefix_of(line),
    ensures
        after(session, SidecarEventView::Stdout(line)).port == session.port,
        step_for(session.phase, SidecarEventView::Stdout(line)).ready is None,
{
    lemma_ready_prefix_bytes();
    if ready_prefix().is_prefix_of(decoded(line)) {
        lemma_prefix_of_decoded(ready_prefix(), line);
    }
}

/// Only an event that announces a port changes the cell: over any events of
/// which none does, the cell holds at the end what it held at the start.
pub proof fn lemma_cell_kept_without_readiness(session: Session, events: Seq<SidecarEventView>)
    requires
        none_announced(events),
    ensures
        after_all(session, events).port == session.port,
    decreases events.len(),
{
    if events.len() > 0 {
        assert(none_announced(events.drop_last()));
        lemma_cell_kept_without_readiness(session, events.drop_last());
    }
}

/// Without an event that announces a port no notification is asked for.
pub proof fn lemma_silent_without_readiness(session: Session, events: Seq<SidecarEventView>)
    requires
        none_announced(events),
    ensures
        notified(session, events) == Seq::<u16>::empty(),
    decreases events.len(),
{
    if events.len() > 0 {
        assert(none_announced(events.drop_last()));
        lemma_silent_without_readiness(session, events.drop_last());
    }
}

/// Notifications asked over events taken one after another are those asked
/// over the events taken together.
pub proof fn lemma_notified_concat(
    session: Session,
    first: Seq<SidecarEventView>,
    second: Seq<SidecarEventView>,
)
    ensures
        notified(session, first + second) == notified(session, first) + notified(
            after_all(session, first),
            second,
        ),
    decreases second.len(),
{
    if second.len() > 0 {
        assert((first + second).drop_last() =~= first + second.drop_last());
        lemma_notified_concat(session, first, second.drop_last());
        lemma_after_all_concat(session, first, second.drop_last());
    }
}

/// A backend that prints its readiness line once, while it is watched, has
/// its port published once: the cell is empty until the line arrives, holds
/// that port from then on, and exactly one notification is asked for, which
/// carries that port.
pub proof fn lemma_single_readiness_line(
    before: Seq<SidecarEventView>,
    line: Seq<u8>,
    port: u16,
    later: Seq<SidecarEventView>,
)
    requires
        none_announced(before),
        none_announced(later),
        after_all(start(), before).phase == Phase::Watching,
        ready_port(decoded(line)) == Some(port),
    ensures
        after_all(start(), before).port is None,
        after_all(start(), before + seq![SidecarEventView::Stdout(line)]).port == Some(port),
        after_all(start(), before + seq![SidecarEventView::Stdout(line)] + later).port == Some(
            port,
        ),
        notified(start(), before + seq![SidecarEventView::Stdout(line)] + later) == seq![port],
{
    let event = SidecarEventView::Stdout(line);
    let one = seq![event];
    let watching = after_all(start(), before);
    lemma_cell_kept_without_readiness(start(), before);
    assert(after_all(watching, one.drop_last()) == watching);
    assert(notified(watching, one.drop_last()) == Seq::<u16>::empty());
    lemma_after_all_concat(start(), before, one);
    let published = after_all(start(), before + one);
    lemma_after_all_concat(start(), before + one, later);
    lemma_cell_kept_without_readiness(published, later);
    lemma_silent_without_readiness(start(), before);
    lemma_notified_concat(start(), before, one);
    lemma_silent_without_readiness(published, later);
    lemma_notified_concat(start(), before + one, later);
}

/// A query made before any readiness line has arrived is answered with the
/// error that the backend is not ready.
pub proof fn lemma_not_ready_before_readiness(events: Seq<SidecarEventView>)
    requires
        none_announced(events),
    ensures
        query_outcome(after_all(start(), events).port) == Err::<u16, Seq<char>>(
            not_ready_message(),
        ),
{
    lemma_cell_kept_without_readiness(start(), events);
}

/// Once a readiness line has published a port, every query is answered with
/// exactly that port, whatever follows, as long as no other port is
/// announced.
pub proof fn lemma_port_stays_published(
    held: Option<u16>,
    port: u16,
    left: Seq<char>,
    right: Seq<char>,
    later: Seq<SidecarEventView>,
)
    requires
        all_white_space(left),
        all_white_space(right),
        none_announced(later),
    ensures
        query_outcome(
            after_all(
                after(
                    Session { phase: Phase::Watching, port: held },
                    SidecarEventView::Stdout(ready_line(port, left, right)),
                ),
                later,
            ).port,
        ) == Ok::<u16, Seq<char>>(port),
{
    lemma_ready_line_publishes(held, port, left, right);
    lemma_cell_kept_without_readiness(Session { phase: Phase::Watching, port: Some(port) }, later);
}

/// Nothing empties the cell: a port, once published, gives way only to
/// another port.
pub proof fn lemma_port_never_cleared(session: Session, events: Seq<SidecarEventView>)
    requires
        session.port is Some,
    ensures
        after_all(session, events).port is Some,
    decreases events.len(),
{
    if events.len() > 0 {
        lemma_port_never_cleared(session, events.drop_last());
    }
}

/// A watch that has stopped stays as it is: no event moves the phase,
/// changes the cell or asks anything of the host.
pub proof fn lemma_stopped_is_final(session: Session, events: Seq<SidecarEventView>)
    requires
        session.phase == Phase::Stopped,
    ensures
        after_all(session, events) == session,
        forall|event: SidecarEventView| #[trigger] step_for(session.phase, event) == silent(),
    decreases events.len(),
{
    if events.len() > 0 {
        lemma_stopped_is_final(session, events.drop_last());
    }
}

/// Diagnostics are never fatal: a line on standard error, a notification
/// that could not be delivered and an event of an unknown kind leave the
/// phase and the cell as they are, and none asks for a notification.
pub proof fn lemma_diagnostics_keep_watch(session: Session, event: SidecarEventView)
    requires
        event is Stderr || event is NotifyFailed || event is Other,
    ensures
        after(session, event) == session,
        step_for(session.phase, event).ready is None,
        session.phase == Phase::Watching ==> step_for(session.phase, event) == match event {
            SidecarEventView::Stderr(line) => report(NoticeView::ErrorOutput(decoded(line))),
            SidecarEventView::NotifyFailed(reason) => report(NoticeView::NotifyFailed(reason)),
            _ => silent(),
        },
{
}

/// The cell is written only while the child is watched: before the spawn no
/// event changes it.
pub proof fn lemma_cell_kept_before_spawn(session: Session, event: SidecarEventView)
    requires
        session.phase == Phase::Idle || session.phase == Phase::CommandReady,
    ensures
        after(session, event).port == session.port,
        step_for(session.phase, event).ready is None,
{
}

/// A command that cannot be created, or a child that cannot be spawned, ends
/// the watch at once: the failure is reported, the cell stays empty, and it
/// is empty after whatever may follow.
pub proof fn lemma_failed_start_leaves_cell_empty(
    reason: Seq<char>,
    later: Seq<SidecarEventView>,
)
    ensures
        step_for(Phase::Idle, SidecarEventView::CommandFailed(reason)) == report(
            NoticeView::CommandFailed(reason),
        ),
        after_all(start(), seq![SidecarEventView::CommandFailed(reason)] + later) == (Session {
            phase: Phase::Stopped,
            port: None,
        }),
        step_for(Phase::CommandReady, SidecarEventView::SpawnFailed(reason)) == report(
            NoticeView::SpawnFailed(reason),
        ),
        after_all(
            start(),
            seq![SidecarEventView::CommandCreated, SidecarEventView::SpawnFailed(reason)] + later,
        ) == (Session { phase: Phase::Stopped, port: None }),
{
    let stopped = Session { phase: Phase::Stopped, port: None };
    let create = seq![SidecarEventView::CommandFailed(reason)];
    assert(after_all(start(), create.drop_last()) == start());
    lemma_after_all_concat(start(), create, later);
    let spawn = seq![SidecarEventView::CommandCreated, SidecarEventView::SpawnFailed(reason)];
    assert(after_all(start(), spawn.drop_last().drop_last()) == start());
    assert(after_all(start(), spawn.drop_last()) == (Session {
        phase: Phase::CommandReady,
        port: None,
    }));
    lemma_after_all_concat(start(), spawn, later);
    lemma_stopped_is_final(stopped, later);
}

/// The end of the child, whether it exits, its channel fails or its stream
/// of events closes, ends the watch and leaves the cell as it is: empty if
/// no port had been published, and holding the last port published
/// otherwise, also after whatever may follow.
pub proof fn lemma_termination_keeps_cell(
    session: Session,
    event: SidecarEventView,
    later: Seq<SidecarEventView>,
)
    requires
        event is Terminated || event is Error || event is Closed,
    ensures
        after(session, event).port == session.port,
        session.phase == Phase::Watching ==> after_all(after(session, event), later) == (Session {
            phase: Phase::Stopped,
            port: session.port,
        }),
{
    if session.phase == Phase::Watching {
        lemma_stopped_is_final(after(session, event), later);
    }
}

} // verus!
