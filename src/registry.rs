use vstd::prelude::*;
use vstd::string::StringExecFns;
use crate::session::{addressed_to, Event, EventView, Outbound, Receipt, Session, SessionView};

verus! {

/// Why a registry operation was refused.
#[derive(Debug, PartialEq, Eq, Structural)]
pub enum RegistryError {
    /// No live session has the identifier.
    UnknownSession,
    /// The session already has its outbound channel.
    AlreadyAttached,
}

/// No two sessions share an identifier.
pub open spec fn ids_unique(s: Seq<SessionView>) -> bool {
    forall|i: int, j: int| 0 <= i < j < s.len() ==> s[i].id != s[j].id
}

/// Whether some session has identifier `id`.
pub open spec fn has_id(s: Seq<SessionView>, id: Seq<char>) -> bool {
    exists|i: int| 0 <= i < s.len() && s[i].id == id
}

/// The identifiers of the live sessions.
pub open spec fn live_ids(s: Seq<SessionView>) -> Set<Seq<char>> {
    Set::new(|k: Seq<char>| has_id(s, k))
}

/// The sessions after registering `id` for `owner`: a new session with no
/// topics and no channel, unless the identifier is taken.
pub open spec fn registered(s: Seq<SessionView>, id: Seq<char>, owner: usize) -> Seq<SessionView> {
    if has_id(s, id) {
        s
    } else {
        s.push(SessionView { id, owner, topics: Seq::empty(), attached: false })
    }
}

/// The sessions after removing the one with identifier `id`, if any.
pub open spec fn without(s: Seq<SessionView>, id: Seq<char>) -> Seq<SessionView> {
    if has_id(s, id) {
        s.remove(choose|i: int| 0 <= i < s.len() && s[i].id == id)
    } else {
        s
    }
}

/// The sessions after giving the one with identifier `id` the topic set
/// `topics`; every other session is left as it was.
pub open spec fn retopic(s: Seq<SessionView>, id: Seq<char>, topics: Seq<Seq<char>>) -> Seq<SessionView> {
    Seq::new(s.len(), |j: int| if s[j].id == id { SessionView { topics, ..s[j] } } else { s[j] })
}

/// The sessions after marking the one with identifier `id` attached.
pub open spec fn attached_at(s: Seq<SessionView>, id: Seq<char>) -> Seq<SessionView> {
    Seq::new(s.len(), |j: int| if s[j].id == id { SessionView { attached: true, ..s[j] } } else { s[j] })
}

/// Whether the session with identifier `id` has its channel.
pub open spec fn is_attached(s: Seq<SessionView>, id: Seq<char>) -> bool {
    exists|i: int| 0 <= i < s.len() && s[i].id == id && s[i].attached
}

/// Whether the session at position `j` is to receive the event: it has a
/// channel and the event is addressed to it.
pub open spec fn receives(s: Seq<SessionView>, j: int, ev: EventView) -> bool {
    s[j].attached && addressed_to(s[j], ev)
}

/// Whether `id` names a session that the event is to reach.
pub open spec fn is_recipient(s: Seq<SessionView>, ev: EventView, id: Seq<char>) -> bool {
    exists|j: int| 0 <= j < s.len() && receives(s, j, ev) && s[j].id == id
}

/// `c` followed by `k` times `~`.
pub open spec fn padded(c: Seq<char>, k: nat) -> Seq<char> {
    c + Seq::new(k, |i: int| '~')
}

/// How many sessions have an identifier of at least `n` characters.
pub open spec fn count_long(s: Seq<SessionView>, n: nat) -> nat
    decreases s.len(),
{
    if s.len() == 0 {
        0
    } else {
        count_long(s.drop_last(), n) + if s.last().id.len() >= n { 1nat } else { 0nat }
    }
}

proof fn lemma_count_long(s: Seq<SessionView>, n: nat)
    ensures
        count_long(s, n + 1) <= count_long(s, n),
        (exists|j: int| 0 <= j < s.len() && s[j].id.len() == n) ==> count_long(s, n + 1) < count_long(s, n),
    decreases s.len(),
{
    if s.len() > 0 {
        let t = s.drop_last();
        lemma_count_long(t, n);
        if exists|j: int| 0 <= j < s.len() && s[j].id.len() == n {
            let j = choose|j: int| 0 <= j < s.len() && s[j].id.len() == n;
            if j < s.len() - 1 {
                assert(t[j] == s[j]);
            }
        }
    }
}

/// Relies on uuid's `Uuid::new_v4`: a random identifier, written as 32
/// lowercase hex digits. Being random, nothing is promised of it.
#[verifier::external_body]
fn random_id() -> (id: String) {
    uuid::Uuid::new_v4().simple().to_string()
}

/// The map of live sessions, shared by registration, connection handling
/// and dispatch.
pub struct Registry {
    sessions: Vec<Session>,
}

impl View for Registry {
    type V = Seq<SessionView>;

    closed spec fn view(&self) -> Seq<SessionView> {
        self.sessions@.map_values(|s: Session| s@)
    }
}

impl Registry {
    pub open spec fn wf(&self) -> bool {
        ids_unique(self@)
    }

    /// An empty registry.
    pub fn new() -> (r: Registry)
        ensures
            r.wf(),
            r@ == Seq::<SessionView>::empty(),
    {
        let r = Registry { sessions: Vec::new() };
        assert(r@ =~= Seq::<SessionView>::empty());
        r
    }

    /// The number of live sessions.
    pub fn len(&self) -> (n: usize)
        ensures
            n == self@.len(),
    {
        self.sessions.len()
    }

    /// The position of the session with identifier `id`, if there is one.
    fn position(&self, id: &String) -> (r: Option<usize>)
        ensures
            match r {
                Some(i) => i < self@.len() && self@[i as int].id == id@,
                None => !has_id(self@, id@),
            },
    {
        let mut i: usize = 0;
        while i < self.sessions.len()
            invariant
                0 <= i <= self.sessions.len(),
                forall|j: int| 0 <= j < i ==> self@[j].id != id@,
            decreases self.sessions.len() - i,
        {
            if self.sessions[i].id == *id {
                return Some(i);
            }
            i += 1;
        }
        None
    }

    /// Whether a session with identifier `id` is live.
    pub fn contains(&self, id: &String) -> (r: bool)
        ensures
            r == has_id(self@, id@),
    {
        self.position(id).is_some()
    }

    /// Registers a new session for `owner` under `candidate`, or, when that
    /// identifier is live, under the first of `candidate` followed by one,
    /// two, ... `~` that is not. The new session has no topics and no
    /// channel; the identifier is returned.
    pub fn register_with(&mut self, candidate: String, owner: usize) -> (id: String)
        requires
            old(self).wf(),
        ensures
            final(self).wf(),
            !has_id(old(self)@, id@),
            final(self)@ == registered(old(self)@, id@, owner),
            exists|k: nat| #![trigger padded(candidate@, k)]
                id@ == padded(candidate@, k)
                && forall|m: nat| m < k ==> has_id(old(self)@, #[trigger] padded(candidate@, m)),
    {
        let mut id = candidate;
        let ghost k: nat = 0;
        assert(id@ =~= padded(candidate@, 0));
        while self.contains(&id)
            invariant
                self.wf(),
                self@ == old(self)@,
                id@ == padded(candidate@, k),
                forall|m: nat| m < k ==> has_id(self@, #[trigger] padded(candidate@, m)),
            decreases count_long(self@, id@.len()),
        {
            proof {
                lemma_count_long(self@, id@.len());
            }
            id.append("~");
            proof {
                reveal_strlit("~");
                assert(id@ =~= padded(candidate@, k + 1));
                assert(has_id(self@, padded(candidate@, k)));
                k = k + 1;
            }
        }
        let s = Session::new(id.clone(), owner);
        self.sessions.push(s);
        assert(self@ =~= old(self)@.push(s@));
        id
    }

    /// Registers a new session for `owner` under a freshly drawn
    /// identifier, which is returned. It is never one that is live.
    pub fn register(&mut self, owner: usize) -> (id: String)
        requires
            old(self).wf(),
        ensures
            final(self).wf(),
            !has_id(old(self)@, id@),
            final(self)@ == registered(old(self)@, id@, owner),
    {
        let candidate = random_id();
        self.register_with(candidate, owner)
    }

    /// Removes the session `id`; nothing happens when it is not live.
    pub fn unregister(&mut self, id: &String)
        requires
            old(self).wf(),
        ensures
            final(self).wf(),
            final(self)@ == without(old(self)@, id@),
    {
        match self.position(id) {
            Some(i) => {
                let ghost k = choose|k: int| 0 <= k < old(self)@.len() && old(self)@[k].id == id@;
                assert(k == i as int);
                let _gone = self.sessions.remove(i);
                assert(self@ =~= old(self)@.remove(i as int));
            },
            None => {},
        }
    }

    /// Binds the outbound channel of session `id`. Refused when no such
    /// session is live, or when it already has its channel.
    pub fn attach(&mut self, id: &String, tx: tokio::sync::mpsc::UnboundedSender<String>) -> (r: Result<(), RegistryError>)
        requires
            old(self).wf(),
        ensures
            final(self).wf(),
            r == (if !has_id(old(self)@, id@) {
                Err(RegistryError::UnknownSession)
            } else if is_attached(old(self)@, id@) {
                Err(RegistryError::AlreadyAttached)
            } else {
                Ok(())
            }),
            r is Ok ==> final(self)@ == attached_at(old(self)@, id@),
            r is Err ==> final(self)@ == old(self)@,
    {
        match self.position(id) {
            None => Err(RegistryError::UnknownSession),
            Some(i) => {
                if self.sessions[i].outbound.is_attached_exec() {
                    return Err(RegistryError::AlreadyAttached);
                }
                assert(!is_attached(old(self)@, id@));
                let mut s = self.sessions.remove(i);
                s.outbound = Outbound::Attached(tx);
                self.sessions.insert(i, s);
                assert(self@ =~= attached_at(old(self)@, id@));
                Ok(())
            },
        }
    }

    /// Replaces the whole topic set of session `id`. A stale update for an
    /// identifier that is no longer live changes nothing.
    pub fn update_topics(&mut self, id: &String, topics: Vec<String>)
        requires
            old(self).wf(),
        ensures
            final(self).wf(),
            final(self)@ == retopic(old(self)@, id@, topics.deep_view()),
    {
        match self.position(id) {
            None => {
                assert(self@ =~= retopic(old(self)@, id@, topics.deep_view()));
            },
            Some(i) => {
                let ghost t = topics.deep_view();
                let mut s = self.sessions.remove(i);
                s.topics = topics;
                self.sessions.insert(i, s);
                assert(self@ =~= retopic(old(self)@, id@, t));
            },
        }
    }

    /// The topics of session `id`, when it is live.
    pub fn topics_of(&self, id: &String) -> (r: Option<Vec<String>>)
        ensures
            match r {
                Some(t) => exists|i: int| 0 <= i < self@.len() && self@[i].id == id@ && self@[i].topics == t.deep_view(),
                None => !has_id(self@, id@),
            },
    {
        match self.position(id) {
            None => None,
            Some(i) => {
                let t = self.sessions[i].topics.clone();
                assert(t.deep_view() =~= self.sessions[i as int].topics.deep_view());
                Some(t)
            },
        }
    }
}

impl Registry {
    /// The positions of the sessions that the event is to reach, in
    /// ascending order: exactly the attached sessions it is addressed to.
    pub fn recipients(&self, ev: &Event) -> (r: Vec<usize>)
        ensures
            forall|k: int| 0 <= k < r@.len() ==> r@[k] < self@.len() && receives(self@, r@[k] as int, ev@),
            forall|k: int, l: int| 0 <= k < l < r@.len() ==> r@[k] < r@[l],
            forall|j: int| 0 <= j < self@.len() && receives(self@, j, ev@) ==> r@.contains(j as usize),
    {
        let mut r: Vec<usize> = Vec::new();
        let mut i: usize = 0;
        while i < self.sessions.len()
            invariant
                0 <= i <= self.sessions.len(),
                forall|k: int| 0 <= k < r@.len() ==> r@[k] < i && receives(self@, r@[k] as int, ev@),
                forall|k: int, l: int| 0 <= k < l < r@.len() ==> r@[k] < r@[l],
                forall|j: int| 0 <= j < i && receives(self@, j, ev@) ==> r@.contains(j as usize),
            decreases self.sessions.len() - i,
        {
            let s = &self.sessions[i];
            if s.outbound.is_attached_exec() && ev.is_for(s) {
                let ghost before = r@;
                r.push(i);
                assert forall|j: int| 0 <= j < i + 1 && receives(self@, j, ev@) implies r@.contains(j as usize) by {
                    if j < i {
                        let k = choose|k: int| 0 <= k < before.len() && before[k] == j as usize;
                        assert(r@[k] == j as usize);
                    } else {
                        assert(r@[before.len() as int] == i);
                    }
                };
            }
            i += 1;
        }
        r
    }

    /// Hands the event's message to every attached session it is addressed
    /// to, in registry order, and to no other; returns one receipt for each,
    /// which tells whether that session's channel accepted it.
    pub fn publish(&self, ev: &Event) -> (receipts: Vec<Receipt>)
        requires
            self.wf(),
        ensures
            forall|k: int| 0 <= k < receipts@.len() ==> #[trigger] receipts@[k]@.message == ev@.message
                && is_recipient(self@, ev@, receipts@[k]@.id),
            forall|k: int, l: int| #![trigger receipts@[k]@.id, receipts@[l]@.id]
                0 <= k < l < receipts@.len() ==> receipts@[k]@.id != receipts@[l]@.id,
            forall|j: int| #![trigger receives(self@, j, ev@)]
                0 <= j < self@.len() && receives(self@, j, ev@) ==> exists|k: int| #![trigger receipts@[k]@]
                    0 <= k < receipts@.len() && receipts@[k]@.id == self@[j].id,
    {
        let n: usize = self.sessions.len();
        let targets = self.recipients(ev);
        let mut receipts: Vec<Receipt> = Vec::new();
        let mut k: usize = 0;
        while k < targets.len()
            invariant
                0 <= k <= targets.len(),
                receipts@.len() == k,
                n == self@.len(),
                forall|a: int| 0 <= a < targets@.len() ==> targets@[a] < self@.len() && receives(self@, targets@[a] as int, ev@),
                forall|a: int, b: int| 0 <= a < b < targets@.len() ==> targets@[a] < targets@[b],
                forall|j: int| 0 <= j < self@.len() && receives(self@, j, ev@) ==> targets@.contains(j as usize),
                forall|a: int| 0 <= a < k ==> #[trigger] receipts@[a]@.message == ev@.message
                    && receipts@[a]@.id == self@[targets@[a] as int].id,
            decreases targets.len() - k,
        {
            let j = targets[k];
            let r = self.sessions[j].deliver(&ev.message);
            receipts.push(r);
            k += 1;
        }
        assert forall|a: int| 0 <= a < receipts@.len() implies #[trigger] receipts@[a]@.message == ev@.message
            && is_recipient(self@, ev@, receipts@[a]@.id) by {
            assert(receipts@[a]@.message == ev@.message);
            let j = targets@[a] as int;
            assert(receives(self@, j, ev@) && self@[j].id == receipts@[a]@.id);
        };
        assert forall|a: int, b: int| #![trigger receipts@[a]@.id, receipts@[b]@.id]
            0 <= a < b < receipts@.len() implies receipts@[a]@.id != receipts@[b]@.id by {
            assert(receipts@[a]@.message == ev@.message);
            assert(receipts@[b]@.message == ev@.message);
            assert(targets@[a] < targets@[b]);
        };
        assert forall|j: int| #![trigger receives(self@, j, ev@)]
            0 <= j < self@.len() && receives(self@, j, ev@) implies exists|k: int| #![trigger receipts@[k]@]
                0 <= k < receipts@.len() && receipts@[k]@.id == self@[j].id by {
            assert(j < n);
            assert(targets@.contains(j as usize));
            let a = choose|a: int| 0 <= a < targets@.len() && targets@[a] == j as usize;
            assert(0 <= a < receipts@.len());
            assert(receipts@[a]@.message == ev@.message);
            assert(targets@[a] as int == j);
            assert(receipts@[a]@.id == self@[j].id);
        };
        receipts
    }
}

} // verus!
