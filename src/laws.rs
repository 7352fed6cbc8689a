use vstd::prelude::*;
use crate::pump::{transition, Action, Phase, PumpInput};
use crate::registry::{has_id, ids_unique, live_ids, receives, registered, retopic, without};
use crate::session::{EventView, SessionView};

verus! {

/// A registration or a removal, as applied to the registry's sessions.
pub enum RegistryOp {
    Register(Seq<char>, usize),
    Unregister(Seq<char>),
}

/// The sessions after one operation, as `register` and `unregister` state it.
pub open spec fn apply_op(s: Seq<SessionView>, op: RegistryOp) -> Seq<SessionView> {
    match op {
        RegistryOp::Register(id, owner) => registered(s, id, owner),
        RegistryOp::Unregister(id) => without(s, id),
    }
}

/// The sessions after a sequence of operations, applied in order.
pub open spec fn apply_ops(s: Seq<SessionView>, ops: Seq<RegistryOp>) -> Seq<SessionView>
    decreases ops.len(),
{
    if ops.len() == 0 {
        s
    } else {
        apply_op(apply_ops(s, ops.drop_last()), ops.last())
    }
}

/// The identifiers registered and not removed since, starting from `ids`.
pub open spec fn expected_ids(ids: Set<Seq<char>>, ops: Seq<RegistryOp>) -> Set<Seq<char>>
    decreases ops.len(),
{
    if ops.len() == 0 {
        ids
    } else {
        match ops.last() {
            RegistryOp::Register(id, _) => expected_ids(ids, ops.drop_last()).insert(id),
            RegistryOp::Unregister(id) => expected_ids(ids, ops.drop_last()).remove(id),
        }
    }
}

proof fn lemma_one_op(s: Seq<SessionView>, op: RegistryOp)
    requires
        ids_unique(s),
    ensures
        ids_unique(apply_op(s, op)),
        live_ids(apply_op(s, op)) == match op {
            RegistryOp::Register(id, _) => live_ids(s).insert(id),
            RegistryOp::Unregister(id) => live_ids(s).remove(id),
        },
{
    match op {
        RegistryOp::Register(id, owner) => {
            let t = apply_op(s, op);
            if !has_id(s, id) {
                assert forall|k: Seq<char>| has_id(t, k) <==> (has_id(s, k) || k == id) by {
                    if has_id(s, k) {
                        let i = choose|i: int| 0 <= i < s.len() && s[i].id == k;
                        assert(t[i] == s[i]);
                    }
                    if k == id {
                        assert(t[s.len() as int].id == id);
                    }
                };
            }
            assert(live_ids(t) =~= live_ids(s).insert(id));
        },
        RegistryOp::Unregister(id) => {
            let t = apply_op(s, op);
            if has_id(s, id) {
                let i = choose|i: int| 0 <= i < s.len() && s[i].id == id;
                assert(t == s.remove(i));
                assert forall|k: Seq<char>| has_id(t, k) <==> (has_id(s, k) && k != id) by {
                    if has_id(t, k) {
                        let m = choose|m: int| 0 <= m < t.len() && t[m].id == k;
                        if m < i {
                            assert(t[m] == s[m]);
                        } else {
                            assert(t[m] == s[m + 1]);
                        }
                    }
                    if has_id(s, k) && k != id {
                        let m = choose|m: int| 0 <= m < s.len() && s[m].id == k;
                        if m < i {
                            assert(t[m] == s[m]);
                        } else {
                            assert(t[m - 1] == s[m]);
                        }
                    }
                };
            }
            assert(live_ids(t) =~= live_ids(s).remove(id));
        },
    }
}

/// Whatever registrations and removals are made, the live identifiers are
/// exactly those registered and not yet removed, and they stay distinct.
pub proof fn lemma_live_ids_follow_ops(s: Seq<SessionView>, ops: Seq<RegistryOp>)
    requires
        ids_unique(s),
    ensures
        ids_unique(apply_ops(s, ops)),
        live_ids(apply_ops(s, ops)) == expected_ids(live_ids(s), ops),
    decreases ops.len(),
{
    if ops.len() > 0 {
        lemma_live_ids_follow_ops(s, ops.drop_last());
        lemma_one_op(apply_ops(s, ops.drop_last()), ops.last());
    }
}

/// Removing an identifier twice leaves the sessions as removing it once.
pub proof fn lemma_unregister_idempotent(s: Seq<SessionView>, id: Seq<char>)
    requires
        ids_unique(s),
    ensures
        without(without(s, id), id) == without(s, id),
{
    lemma_one_op(s, RegistryOp::Unregister(id));
    assert(!live_ids(without(s, id)).contains(id));
}

/// A topic update for an identifier that is not live changes no session,
/// and an update for a live one changes no other session.
pub proof fn lemma_update_topics_is_local(s: Seq<SessionView>, id: Seq<char>, topics: Seq<Seq<char>>)
    ensures
        !has_id(s, id) ==> retopic(s, id, topics) == s,
        retopic(s, id, topics).len() == s.len(),
        forall|j: int| 0 <= j < s.len() && s[j].id != id ==> #[trigger] retopic(s, id, topics)[j] == s[j],
{
    if !has_id(s, id) {
        assert(retopic(s, id, topics) =~= s);
    }
}

/// An event naming a user reaches exactly the attached sessions of that
/// user, whatever their topics.
pub proof fn lemma_user_event_routing(s: Seq<SessionView>, ev: EventView, u: usize)
    requires
        ev.user_id == Some(u),
    ensures
        forall|j: int| 0 <= j < s.len() ==> (#[trigger] receives(s, j, ev) <==> (s[j].attached && s[j].owner == u)),
{
}

/// An event naming no user reaches exactly the attached sessions subscribed
/// to its topic.
pub proof fn lemma_topic_event_routing(s: Seq<SessionView>, ev: EventView)
    requires
        ev.user_id is None,
    ensures
        forall|j: int| 0 <= j < s.len() ==> (#[trigger] receives(s, j, ev) <==> (s[j].attached && s[j].topics.contains(ev.topic))),
{
}

/// Teardown happens once: a connection that reached `Closed` stays there,
/// and no later event, however the lanes race, touches the sessions again.
pub proof fn lemma_closed_is_final(s: Seq<SessionView>, id: Seq<char>, input: PumpInput)
    ensures
        transition(s, id, Phase::Closed, input) == (Phase::Closed, Action::Done, s),
{
}

/// A keep-alive frame, or a frame that is no subscription update, leaves an
/// active connection active and changes no session.
pub proof fn lemma_ignored_frames(s: Seq<SessionView>, id: Seq<char>, t: Seq<char>, parsed: Option<Seq<Seq<char>>>)
    requires
        crate::pump::is_keep_alive(t) || parsed is None,
    ensures
        transition(s, id, Phase::Active, PumpInput::Text(t, parsed)) == (Phase::Active, Action::Continue, s),
{
}

} // verus!
