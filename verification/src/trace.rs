//! What a session publishes over its whole life.
//!
//! A life is a sequence of operations on a fresh session: events, and closes.
//! The laws here hold of every such sequence, whatever the connection and the
//! bus do.

use crate::envelope::{joined_phrase, left_phrase, MessageType};
use crate::session::{
    close_of, fresh, join_notice, leave_notice, step_of, user_line, ActionView, EventView, Phase,
    SessionView,
};
use crate::text::{is_space, lemma_trimmed_edges, trimmed};
use vstd::prelude::*;

verus! {

/// One operation on a session.
pub enum Op {
    /// `Session::step` with this event.
    Step(EventView),
    /// `Session::close`.
    Close,
}

/// The session after `op`, and the action that `op` answers with.
pub open spec fn apply(s: SessionView, op: Op) -> (SessionView, ActionView) {
    match op {
        Op::Step(event) => step_of(s, event),
        Op::Close => close_of(s),
    }
}

/// The session after all of `ops`, in order.
pub open spec fn run(s: SessionView, ops: Seq<Op>) -> SessionView
    decreases ops.len(),
{
    if ops.len() == 0 {
        s
    } else {
        apply(run(s, ops.drop_last()), ops.last()).0
    }
}

/// The `Publish` actions that `ops` answer with, in order.
pub open spec fn published(s: SessionView, ops: Seq<Op>) -> Seq<ActionView>
    decreases ops.len(),
{
    if ops.len() == 0 {
        Seq::empty()
    } else {
        let before = published(s, ops.drop_last());
        let action = apply(run(s, ops.drop_last()), ops.last()).1;
        if action is Publish {
            before.push(action)
        } else {
            before
        }
    }
}

/// Whether `action` publishes a client's line.
pub open spec fn is_user_line(action: ActionView) -> bool {
    action matches ActionView::Publish { kind, .. } && kind == MessageType::UserMessage
}

/// Whether `out` is the join notice followed by clients' lines alone.
pub open spec fn opened(out: Seq<ActionView>) -> bool {
    &&& out.len() >= 1
    &&& out[0] == join_notice()
    &&& forall|i: int| 1 <= i < out.len() ==> is_user_line(#[trigger] out[i])
}

/// Whether `out` is the join notice, then clients' lines alone, then the
/// leave notice.
pub open spec fn bracketed(out: Seq<ActionView>) -> bool {
    &&& out.len() >= 2
    &&& out[0] == join_notice()
    &&& out[out.len() - 1] == leave_notice()
    &&& forall|i: int| 1 <= i < out.len() - 1 ==> is_user_line(#[trigger] out[i])
}

/// How far a phase is along a session's life.
pub open spec fn rank(phase: Phase) -> int {
    match phase {
        Phase::Handshaking => 0,
        Phase::Active => 1,
        Phase::Closing => 2,
        Phase::Closed => 3,
    }
}

/// The two notices differ, and neither is a client's line.
pub proof fn lemma_notices_differ()
    ensures
        join_notice() != leave_notice(),
        !is_user_line(join_notice()),
        !is_user_line(leave_notice()),
{
    reveal_strlit("joined the chat");
    reveal_strlit("left the chat");
    assert(joined_phrase().len() == 15);
    assert(left_phrase().len() == 13);
}

/// In a bracketed run each notice stands once: the join notice first and
/// nowhere else, the leave notice last and nowhere else.
pub proof fn lemma_bracketed_once(out: Seq<ActionView>)
    requires
        bracketed(out),
    ensures
        forall|i: int| 0 <= i < out.len() ==> (#[trigger] out[i] == join_notice() <==> i == 0),
        forall|i: int|
            0 <= i < out.len() ==> (#[trigger] out[i] == leave_notice() <==> i == out.len() - 1),
{
    lemma_notices_differ();
    assert forall|i: int| 0 <= i < out.len() implies (#[trigger] out[i] == join_notice() <==> i
        == 0) by {
        if 1 <= i < out.len() - 1 {
            assert(is_user_line(out[i]));
        }
    }
    assert forall|i: int| 0 <= i < out.len() implies (#[trigger] out[i] == leave_notice() <==> i
        == out.len() - 1) by {
        if 1 <= i < out.len() - 1 {
            assert(is_user_line(out[i]));
        }
    }
}

/// A session never goes back: no operation lowers the phase, and a closed
/// session stays closed and answers with nothing.
pub proof fn lemma_forward_only(s: SessionView, op: Op)
    ensures
        rank(apply(s, op).0.phase) >= rank(s.phase),
        s.phase == Phase::Closed ==> apply(s, op) == (s, ActionView::Idle),
{
}

/// The name is fixed once the handshake is over: no operation on a session
/// that has left the handshake changes it.
pub proof fn lemma_identity_fixed(s: SessionView, ops: Seq<Op>)
    requires
        s.phase != Phase::Handshaking,
    ensures
        run(s, ops).identity == s.identity,
        run(s, ops).phase != Phase::Handshaking,
    decreases ops.len(),
{
    if ops.len() > 0 {
        lemma_identity_fixed(s, ops.drop_last());
    }
}

/// Join and leave bracket a session's lines. Whatever happens to a session
/// from its start: while it waits for the name it has published nothing;
/// while it is active or closing it has published the join notice once,
/// first, and clients' lines after it; once closed it has published either
/// nothing, when the handshake failed, or the join notice first, the leave
/// notice last, and clients' lines alone between them.
pub proof fn lemma_bracketing(ops: Seq<Op>)
    ensures
        match run(fresh(), ops).phase {
            Phase::Handshaking => published(fresh(), ops).len() == 0,
            Phase::Active | Phase::Closing => opened(published(fresh(), ops)),
            Phase::Closed => published(fresh(), ops).len() == 0 || bracketed(
                published(fresh(), ops),
            ),
        },
    decreases ops.len(),
{
    if ops.len() > 0 {
        let before = ops.drop_last();
        lemma_bracketing(before);
        let s = run(fresh(), before);
        let out = published(fresh(), before);
        let (next, action) = apply(s, ops.last());
        if action is Publish {
            let now = out.push(action);
            assert(published(fresh(), ops) == now);
            assert forall|i: int| 0 <= i < out.len() implies now[i] == out[i] by {}
        }
    }
}

/// A session whose handshake read succeeds publishes under the name that was
/// read, trimmed, a name without whitespace at either end, and has published
/// the join notice; once it is closed, join and leave bracket its lines.
pub proof fn lemma_named_session(line: Seq<char>, rest: Seq<Op>)
    ensures
        ({
            let ops = seq![Op::Step(EventView::Read(line))] + rest;
            let name = run(fresh(), ops).identity;
            &&& name == trimmed(line)
            &&& name.len() > 0 ==> !is_space(name.first()) && !is_space(name.last())
            &&& run(fresh(), ops).phase != Phase::Handshaking
            &&& run(fresh(), ops).phase == Phase::Closed ==> bracketed(published(fresh(), ops))
        }),
    decreases rest.len(),
{
    lemma_trimmed_edges(line);
    let first = seq![Op::Step(EventView::Read(line))];
    let ops = first + rest;
    if rest.len() == 0 {
        assert(ops =~= first);
        assert(first.drop_last() =~= Seq::<Op>::empty());
        assert(run(fresh(), first.drop_last()) == fresh());
    } else {
        lemma_named_session(line, rest.drop_last());
        assert(ops.drop_last() =~= first + rest.drop_last());
        assert(ops.last() == rest.last());
        lemma_bracketing(ops);
        lemma_bracketing(ops.drop_last());
    }
}

/// Whether `event` leaves an active session active: a line that is not
/// empty, a delivery or a lag.
pub open spec fn keeps_active(event: EventView) -> bool {
    match event {
        EventView::Read(line) => line.len() > 0,
        EventView::Delivery(_) => true,
        EventView::Lagged(_) => true,
        _ => false,
    }
}

/// The publications for the lines among `events`, in the order of the lines.
pub open spec fn relayed(events: Seq<EventView>) -> Seq<ActionView>
    decreases events.len(),
{
    if events.len() == 0 {
        Seq::empty()
    } else {
        match events.last() {
            EventView::Read(line) => relayed(events.drop_last()).push(user_line(line)),
            _ => relayed(events.drop_last()),
        }
    }
}

/// Lines go out in the order they came in. An active session that reads
/// lines, none of them empty, publishes each of them once, trimmed, in that
/// order, whatever deliveries and lags come between, and stays as it was.
pub proof fn lemma_relay_order(s: SessionView, events: Seq<EventView>)
    requires
        s.phase == Phase::Active,
        forall|i: int| 0 <= i < events.len() ==> keeps_active(#[trigger] events[i]),
    ensures
        run(s, events.map_values(|event: EventView| Op::Step(event))) == s,
        published(s, events.map_values(|event: EventView| Op::Step(event))) == relayed(events),
    decreases events.len(),
{
    let ops = events.map_values(|event: EventView| Op::Step(event));
    if events.len() > 0 {
        let head = events.drop_last();
        lemma_relay_order(s, head);
        assert(ops.drop_last() =~= head.map_values(|event: EventView| Op::Step(event)));
        assert(ops.last() == Op::Step(events.last()));
        assert(keeps_active(events.last()));
    }
}

/// Deliveries leave no trace. A delivery or a lag changes nothing in a
/// session: what it does with the next event does not depend on what was
/// delivered to it before, or on whether that was ever written.
pub proof fn lemma_deliveries_leave_no_trace(s: SessionView, event: EventView)
    requires
        event is Delivery || event is Lagged,
    ensures
        step_of(s, event).0 == s,
        !(step_of(s, event).1 is Publish),
{
}

} // verus!
