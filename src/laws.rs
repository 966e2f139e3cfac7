use vstd::prelude::*;
use crate::dispatch::{next_state, outcome, DispatchAction, DispatchEvent};
use crate::response::SurrealResponseData;

verus! {

/// The state after taking in `events` one after the other from `s`.
pub open spec fn state_after<H>(s: (bool, Map<Seq<char>, H>), events: Seq<DispatchEvent<H>>) -> (bool, Map<Seq<char>, H>)
    decreases events.len(),
{
    if events.len() == 0 {
        s
    } else {
        state_after(next_state(s, events[0]), events.drop_first())
    }
}

/// The actions that answer `events`, taken in one after the other from `s`.
pub open spec fn actions_of<H>(s: (bool, Map<Seq<char>, H>), events: Seq<DispatchEvent<H>>) -> Seq<DispatchAction<H>>
    decreases events.len(),
{
    if events.len() == 0 {
        Seq::empty()
    } else {
        seq![outcome(s, events[0])] + actions_of(next_state(s, events[0]), events.drop_first())
    }
}

/// The inbound frames that carry `replies`, in that order.
pub open spec fn reply_events<H>(replies: Seq<SurrealResponseData>) -> Seq<DispatchEvent<H>> {
    Seq::new(replies.len(), |i: int| DispatchEvent::Response(replies[i]))
}

/// The registrations of calls `ids[i]` awaited through `handles[i]`, in that order.
pub open spec fn registration_events<H>(ids: Seq<String>, handles: Seq<H>) -> Seq<DispatchEvent<H>> {
    Seq::new(ids.len(), |i: int| DispatchEvent::Registration { id: ids[i], handle: handles[i] })
}

/// No two of `ids` are the same text.
pub open spec fn distinct_ids(ids: Seq<String>) -> bool {
    forall|i: int, j: int| 0 <= i < j < ids.len() ==> ids[i]@ != ids[j]@
}

/// No two of `replies` answer the same id.
pub open spec fn distinct_replies(replies: Seq<SurrealResponseData>) -> bool {
    forall|i: int, j: int| 0 <= i < j < replies.len() ==> replies[i].id@ != replies[j].id@
}

/// A well-formed reply whose id has no pending call is dropped: the
/// dispatcher keeps its state and resolves nobody.
pub proof fn lemma_unknown_id_is_inert<H>(s: (bool, Map<Seq<char>, H>), reply: SurrealResponseData)
    requires
        !s.1.contains_key(reply.id@),
    ensures
        next_state(s, DispatchEvent::Response(reply)) == s,
        outcome(s, DispatchEvent::Response(reply)) == DispatchAction::<H>::Nothing,
{
    assert(s.1.remove(reply.id@) =~= s.1);
}

/// A frame that fails to decode changes nothing and resolves nobody.
pub proof fn lemma_malformed_frame_is_inert<H>(s: (bool, Map<Seq<char>, H>))
    ensures
        next_state(s, DispatchEvent::Malformed) == s,
        outcome(s, DispatchEvent::Malformed) == DispatchAction::<H>::Nothing,
{
}

/// A pending call is resolved at most once: once a reply for its id was taken
/// in, a second reply with that id is dropped like one with an unknown id.
pub proof fn lemma_resolved_at_most_once<H>(
    s: (bool, Map<Seq<char>, H>),
    first: SurrealResponseData,
    second: SurrealResponseData,
)
    requires
        first.id@ == second.id@,
    ensures
        ({
            let s1 = next_state(s, DispatchEvent::Response(first));
            &&& (s.0 ==> !s1.1.contains_key(second.id@))
            &&& next_state(s1, DispatchEvent::Response(second)) == s1
            &&& outcome(s1, DispatchEvent::Response(second)) == DispatchAction::<H>::Nothing
        }),
{
    let s1 = next_state(s, DispatchEvent::Response(first));
    if s.0 {
        assert(!s1.1.contains_key(second.id@));
        lemma_unknown_id_is_inert(s1, second);
    } else {
        assert(!s1.0);
    }
}

/// With calls `a` and `b` both pending, a reply for `b` resolves `b` alone and
/// leaves `a` pending under its own handle; the reply for `a` that follows
/// resolves `a`.
pub proof fn lemma_no_cross_talk<H>(
    pending: Map<Seq<char>, H>,
    reply_a: SurrealResponseData,
    reply_b: SurrealResponseData,
)
    requires
        pending.contains_key(reply_a.id@),
        pending.contains_key(reply_b.id@),
        reply_a.id@ != reply_b.id@,
    ensures
        ({
            let s0 = (true, pending);
            let s1 = next_state(s0, DispatchEvent::Response(reply_b));
            &&& outcome(s0, DispatchEvent::Response(reply_b)) == (DispatchAction::Resolve { handle: pending[reply_b.id@], response: reply_b })
            &&& s1.1.contains_key(reply_a.id@)
            &&& s1.1[reply_a.id@] == pending[reply_a.id@]
            &&& outcome(s1, DispatchEvent::Response(reply_a)) == (DispatchAction::Resolve { handle: pending[reply_a.id@], response: reply_a })
        }),
{
}

/// Taking in `first` and then `second` is taking in `first + second`.
pub proof fn lemma_run_append<H>(
    s: (bool, Map<Seq<char>, H>),
    first: Seq<DispatchEvent<H>>,
    second: Seq<DispatchEvent<H>>,
)
    ensures
        state_after(s, first + second) == state_after(state_after(s, first), second),
        actions_of(s, first + second) == actions_of(s, first) + actions_of(state_after(s, first), second),
    decreases first.len(),
{
    if first.len() == 0 {
        assert(first + second =~= second);
        assert(actions_of(s, first) + actions_of(s, second) =~= actions_of(s, second));
    } else {
        assert((first + second).drop_first() =~= first.drop_first() + second);
        lemma_run_append(next_state(s, first[0]), first.drop_first(), second);
        assert((first + second)[0] == first[0]);
        assert(actions_of(s, first + second) =~= actions_of(s, first) + actions_of(state_after(s, first), second));
    }
}

/// Replies to pending calls with distinct ids, in whatever order they come,
/// each resolve the handle registered under their own id.
pub proof fn lemma_replies_in_any_order<H>(pending: Map<Seq<char>, H>, replies: Seq<SurrealResponseData>)
    requires
        distinct_replies(replies),
        forall|k: int| 0 <= k < replies.len() ==> pending.contains_key(#[trigger] replies[k].id@),
    ensures
        actions_of((true, pending), reply_events::<H>(replies)).len() == replies.len(),
        forall|k: int| 0 <= k < replies.len() ==> #[trigger] actions_of((true, pending), reply_events::<H>(replies))[k]
            == (DispatchAction::Resolve { handle: pending[replies[k].id@], response: replies[k] }),
    decreases replies.len(),
{
    if replies.len() > 0 {
        let rest = replies.drop_first();
        let after_first = pending.remove(replies[0].id@);
        assert(reply_events::<H>(replies).drop_first() =~= reply_events::<H>(rest));
        assert forall|k: int| 0 <= k < rest.len() implies after_first.contains_key(#[trigger] rest[k].id@)
            && after_first[rest[k].id@] == pending[rest[k].id@] by {
            assert(rest[k] == replies[k + 1]);
        }
        lemma_replies_in_any_order(after_first, rest);
        let acts = actions_of((true, pending), reply_events::<H>(replies));
        assert forall|k: int| 0 <= k < replies.len() implies #[trigger] acts[k]
            == (DispatchAction::Resolve { handle: pending[replies[k].id@], response: replies[k] }) by {
            if k > 0 {
                assert(rest[k - 1] == replies[k]);
            }
        }
    }
}

/// Registering calls under distinct ids on a running dispatcher records each
/// handle under its id, displaces nobody, and leaves the other ids as they were.
pub proof fn lemma_registrations<H>(pending: Map<Seq<char>, H>, ids: Seq<String>, handles: Seq<H>)
    requires
        ids.len() == handles.len(),
        distinct_ids(ids),
        forall|j: int| 0 <= j < ids.len() ==> !pending.contains_key(#[trigger] ids[j]@),
    ensures
        ({
            let s = state_after((true, pending), registration_events(ids, handles));
            let acts = actions_of((true, pending), registration_events(ids, handles));
            &&& s.0
            &&& forall|j: int| 0 <= j < ids.len() ==> s.1.contains_key(#[trigger] ids[j]@) && s.1[ids[j]@] == handles[j]
            &&& forall|k: Seq<char>| (forall|j: int| 0 <= j < ids.len() ==> ids[j]@ != k) ==> (#[trigger] s.1.contains_key(k)
                == pending.contains_key(k) && (pending.contains_key(k) ==> s.1[k] == pending[k]))
            &&& acts.len() == ids.len()
            &&& forall|j: int| 0 <= j < ids.len() ==> #[trigger] acts[j] == DispatchAction::<H>::Nothing
        }),
    decreases ids.len(),
{
    let evs = registration_events(ids, handles);
    if ids.len() > 0 {
        let after_first = pending.insert(ids[0]@, handles[0]);
        let rest_ids = ids.drop_first();
        let rest_handles = handles.drop_first();
        assert(evs.drop_first() =~= registration_events(rest_ids, rest_handles));
        assert forall|j: int| 0 <= j < rest_ids.len() implies !after_first.contains_key(#[trigger] rest_ids[j]@) by {
            assert(rest_ids[j] == ids[j + 1]);
        }
        lemma_registrations(after_first, rest_ids, rest_handles);
        let s = state_after((true, pending), evs);
        let acts = actions_of((true, pending), evs);
        assert forall|j: int| 0 <= j < ids.len() implies s.1.contains_key(#[trigger] ids[j]@) && s.1[ids[j]@] == handles[j] by {
            if j > 0 {
                assert(rest_ids[j - 1] == ids[j]);
            } else {
                assert forall|i: int| 0 <= i < rest_ids.len() implies rest_ids[i]@ != ids[0]@ by {
                    assert(rest_ids[i] == ids[i + 1]);
                }
            }
        }
        assert forall|k: Seq<char>| (forall|j: int| 0 <= j < ids.len() ==> ids[j]@ != k) implies (#[trigger] s.1.contains_key(k)
            == pending.contains_key(k) && (pending.contains_key(k) ==> s.1[k] == pending[k])) by {
            assert(ids[0]@ != k);
            assert forall|i: int| 0 <= i < rest_ids.len() implies rest_ids[i]@ != k by {
                assert(rest_ids[i] == ids[i + 1]);
            }
        }
        assert forall|j: int| 0 <= j < ids.len() implies #[trigger] acts[j] == DispatchAction::<H>::Nothing by {
            if j > 0 {
                assert(acts[j] == actions_of(next_state((true, pending), evs[0]), evs.drop_first())[j - 1]);
            }
        }
    }
}

/// Calls issued under distinct ids, whose replies then come in any order, each
/// receive exactly the reply that carries their own id.
pub proof fn lemma_each_call_gets_its_own_reply<H>(
    ids: Seq<String>,
    handles: Seq<H>,
    replies: Seq<SurrealResponseData>,
)
    requires
        ids.len() == handles.len(),
        distinct_ids(ids),
        distinct_replies(replies),
        forall|k: int| 0 <= k < replies.len() ==> exists|j: int| 0 <= j < ids.len() && ids[j]@ == #[trigger] replies[k].id@,
    ensures
        ({
            let acts = actions_of(
                (true, Map::<Seq<char>, H>::empty()),
                registration_events(ids, handles) + reply_events(replies),
            );
            &&& acts.len() == ids.len() + replies.len()
            &&& forall|j: int| 0 <= j < ids.len() ==> #[trigger] acts[j] == DispatchAction::<H>::Nothing
            &&& forall|k: int, j: int| 0 <= k < replies.len() && 0 <= j < ids.len() && #[trigger] replies[k].id@ == #[trigger] ids[j]@
                ==> acts[ids.len() + k] == (DispatchAction::Resolve { handle: handles[j], response: replies[k] })
        }),
{
    let s0 = (true, Map::<Seq<char>, H>::empty());
    let regs = registration_events(ids, handles);
    lemma_registrations(Map::<Seq<char>, H>::empty(), ids, handles);
    lemma_run_append(s0, regs, reply_events::<H>(replies));
    let s1 = state_after(s0, regs);
    assert forall|k: int| 0 <= k < replies.len() implies s1.1.contains_key(#[trigger] replies[k].id@) by {
        let j = choose|j: int| 0 <= j < ids.len() && ids[j]@ == replies[k].id@;
        assert(s1.1.contains_key(ids[j]@));
    }
    lemma_replies_in_any_order(s1.1, replies);
    let acts = actions_of(s0, regs + reply_events(replies));
    assert forall|k: int, j: int| 0 <= k < replies.len() && 0 <= j < ids.len() && #[trigger] replies[k].id@ == #[trigger] ids[j]@
        implies acts[ids.len() + k] == (DispatchAction::Resolve { handle: handles[j], response: replies[k] }) by {
        assert(s1.1[ids[j]@] == handles[j]);
        assert(actions_of((true, s1.1), reply_events::<H>(replies))[k]
            == (DispatchAction::Resolve { handle: s1.1[replies[k].id@], response: replies[k] }));
    }
}

} // verus!
