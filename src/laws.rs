//! What holds of a whole run of a session, over any sequence of events.
use vstd::prelude::*;

use crate::session::{fresh, payload_of, payload_suffix, settlement_of, step, text_of, ActionModel, Event, SessionModel};
use crate::settlement::CellState;

verus! {

/// The session after the events `evs`, starting from `m`.
pub open spec fn run<E>(m: SessionModel, evs: Seq<Event<E>>) -> SessionModel
    decreases evs.len(),
{
    if evs.len() == 0 {
        m
    } else {
        step(run(m, evs.drop_last()), evs.last()).0
    }
}

/// The actions handed out for the events `evs`, one per event, starting from `m`.
pub open spec fn trace<E>(m: SessionModel, evs: Seq<Event<E>>) -> Seq<ActionModel<E>>
    decreases evs.len(),
{
    if evs.len() == 0 {
        Seq::empty()
    } else {
        trace(m, evs.drop_last()).push(step(run(m, evs.drop_last()), evs.last()).1)
    }
}

/// A reply or an error: an event that asks for settlement.
pub open spec fn settles<E>(ev: Event<E>) -> bool {
    settlement_of(ev) is Some
}

/// An action that settles the caller.
pub open spec fn is_settlement<E>(a: ActionModel<E>) -> bool {
    a is Resolve || a is Reject
}

/// `evs[j]` is the first event of `evs` that asks for settlement.
pub open spec fn first_settling<E>(evs: Seq<Event<E>>, j: int) -> bool {
    &&& 0 <= j < evs.len()
    &&& settles(evs[j])
    &&& forall|k: int| 0 <= k < j ==> !settles(#[trigger] evs[k])
}

/// `evs[j]` is the first `Opened` of `evs`.
pub open spec fn first_open<E>(evs: Seq<Event<E>>, j: int) -> bool {
    &&& 0 <= j < evs.len()
    &&& evs[j] is Opened
    &&& forall|k: int| 0 <= k < j ==> !(#[trigger] evs[k] is Opened)
}

/// The state a cell ends in when `ev` is the event that settles it.
pub open spec fn settled_state<E>(ev: Event<E>) -> CellState {
    match ev {
        Event::Opened => CellState::Armed,
        Event::Message(_) => CellState::Resolved,
        Event::Errored(_) => CellState::Rejected,
    }
}

/// What every run from a fresh session satisfies, proved together by induction
/// over the events; the public laws below each state a part of it.
proof fn lemma_run<E>(message: Seq<char>, evs: Seq<Event<E>>)
    ensures
        trace(fresh(message), evs).len() == evs.len(),
        run(fresh(message), evs).payload == payload_of(message),
        forall|j: int|
            0 <= j < evs.len() ==> (is_settlement(#[trigger] trace(fresh(message), evs)[j])
                <==> first_settling(evs, j)),
        forall|j: int|
            0 <= j < evs.len() && is_settlement(#[trigger] trace(fresh(message), evs)[j])
                ==> settlement_of(evs[j]) == Some(trace(fresh(message), evs)[j]),
        (run(fresh(message), evs).cell == CellState::Armed) <==> (forall|k: int|
            0 <= k < evs.len() ==> !settles(#[trigger] evs[k])),
        forall|j: int|
            #[trigger] first_settling(evs, j) ==> run(fresh(message), evs).cell == settled_state(
                evs[j],
            ),
        forall|j: int|
            0 <= j < evs.len() ==> ((#[trigger] trace(fresh(message), evs)[j] is Send)
                <==> first_open(evs, j)),
        forall|j: int|
            0 <= j < evs.len() && (#[trigger] trace(fresh(message), evs)[j] is Send)
                ==> trace(fresh(message), evs)[j] == ActionModel::<E>::Send(payload_of(message)),
        run(fresh(message), evs).sent <==> (exists|k: int|
            0 <= k < evs.len() && #[trigger] evs[k] is Opened),
    decreases evs.len(),
{
    if evs.len() > 0 {
        let pre = evs.drop_last();
        let n = pre.len() as int;
        lemma_run(message, pre);
        let m = run(fresh(message), pre);
        let a = step(m, evs[n]).1;
        let t = trace(fresh(message), evs);
        let tp = trace(fresh(message), pre);
        assert(t == tp.push(a));
        assert(forall|k: int| #![trigger pre[k]] #![trigger evs[k]] 0 <= k < n ==> pre[k] == evs[k]);
        assert forall|j: int| 0 <= j < evs.len() implies (is_settlement(#[trigger] t[j])
            <==> first_settling(evs, j)) by {
            if j < n {
                assert(t[j] == tp[j]);
                assert(first_settling(evs, j) <==> first_settling(pre, j));
            } else {
                assert(m.cell == CellState::Armed <==> (forall|k: int|
                    0 <= k < n ==> !settles(#[trigger] evs[k])));
            }
        }
        assert forall|j: int| 0 <= j < evs.len() implies ((#[trigger] t[j] is Send)
            <==> first_open(evs, j)) by {
            if j < n {
                assert(t[j] == tp[j]);
                assert(first_open(evs, j) <==> first_open(pre, j));
            } else {
                if m.sent {
                    let k = choose|k: int| 0 <= k < pre.len() && #[trigger] pre[k] is Opened;
                    assert(evs[k] is Opened);
                }
            }
        }
        assert forall|j: int| #[trigger] first_settling(evs, j) implies run(
            fresh(message),
            evs,
        ).cell == settled_state(evs[j]) by {
            if j < n {
                assert(first_settling(pre, j));
            }
        }
    }
}

/// At-most-once settlement: over any sequence of events, the only event that
/// settles the caller is the first reply or error, and it settles it with that
/// event's outcome. Every later reply or error is ignored, and the cell ends
/// in the state the first one put it in; with no reply or error it stays armed.
pub proof fn lemma_settles_at_most_once<E>(message: Seq<char>, evs: Seq<Event<E>>)
    ensures
        trace(fresh(message), evs).len() == evs.len(),
        forall|j: int|
            0 <= j < evs.len() ==> (is_settlement(#[trigger] trace(fresh(message), evs)[j])
                <==> first_settling(evs, j)),
        forall|j: int|
            #[trigger] first_settling(evs, j) ==> settlement_of(evs[j]) == Some(
                trace(fresh(message), evs)[j],
            ),
        forall|j: int|
            #[trigger] first_settling(evs, j) ==> run(fresh(message), evs).cell == settled_state(
                evs[j],
            ),
        (run(fresh(message), evs).cell == CellState::Armed) <==> (forall|k: int|
            0 <= k < evs.len() ==> !settles(#[trigger] evs[k])),
{
    lemma_run(message, evs);
    assert forall|j: int| #[trigger] first_settling(evs, j) implies settlement_of(evs[j]) == Some(
        trace(fresh(message), evs)[j],
    ) by {
        assert(is_settlement(trace(fresh(message), evs)[j]));
    }
}

/// No send before open: over any sequence of events, the payload is handed out
/// for sending exactly at the first `Opened` and never elsewhere, and what is
/// handed out is the message followed by the suffix.
pub proof fn lemma_sends_once_after_open<E>(message: Seq<char>, evs: Seq<Event<E>>)
    ensures
        trace(fresh(message), evs).len() == evs.len(),
        forall|j: int|
            0 <= j < evs.len() ==> ((#[trigger] trace(fresh(message), evs)[j] is Send)
                <==> first_open(evs, j)),
        forall|j: int|
            0 <= j < evs.len() && (#[trigger] trace(fresh(message), evs)[j] is Send)
                ==> trace(fresh(message), evs)[j] == ActionModel::<E>::Send(payload_of(message)),
        run(fresh(message), evs).sent <==> (exists|k: int|
            0 <= k < evs.len() && #[trigger] evs[k] is Opened),
{
    lemma_run(message, evs);
}

/// The payload is the message followed by the suffix, for every message: the
/// empty one, and one that already ends with the suffix, which gets it again.
pub proof fn lemma_payload_appends_suffix(message: Seq<char>)
    ensures
        payload_of(message).len() == message.len() + payload_suffix().len(),
        payload_of(message).subrange(0, message.len() as int) == message,
        payload_of(message).subrange(message.len() as int, payload_of(message).len() as int)
            == payload_suffix(),
        payload_of(payload_of(message)) == message + payload_suffix() + payload_suffix(),
        payload_of(Seq::empty()) == payload_suffix(),
{
    assert(payload_of(message).subrange(0, message.len() as int) =~= message);
    assert(payload_of(message).subrange(message.len() as int, payload_of(message).len() as int)
        =~= payload_suffix());
    assert(payload_of(Seq::empty()) =~= payload_suffix());
}

/// Decode fallback: when the first reply or error is a reply whose payload is
/// not text, the caller is resolved with the empty string, not rejected.
pub proof fn lemma_undecodable_reply_resolves_empty<E>(
    message: Seq<char>,
    evs: Seq<Event<E>>,
    j: int,
)
    requires
        first_settling(evs, j),
        evs[j] == Event::<E>::Message(None),
    ensures
        trace(fresh(message), evs)[j] == ActionModel::<E>::Resolve(Seq::empty()),
        run(fresh(message), evs).cell == CellState::Resolved,
{
    lemma_settles_at_most_once(message, evs);
    assert(settlement_of(evs[j]) == Some(ActionModel::<E>::Resolve(text_of(None))));
}

} // verus!
