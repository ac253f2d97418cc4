//! The session registry: the exclusive owner of all group sessions, mapping
//! each locally chosen group id to at most one session.
//!
//! The registry is a vector of sessions with pairwise-distinct ids; every
//! contract over it speaks of the sequence of session models, through the
//! spec functions below.

use vstd::prelude::*;

use crate::session::GroupSession;
use crate::session::SessionModel;

verus! {

/// Whether some session in `s` carries the id `id`.
pub open spec fn contains_id(s: Seq<SessionModel>, id: Seq<char>) -> bool {
    exists|i: int| 0 <= i < s.len() && #[trigger] s[i].id == id
}

/// The index of the session carrying `id` (meaningful when `contains_id`
/// holds and ids are distinct).
pub open spec fn index_of_id(s: Seq<SessionModel>, id: Seq<char>) -> int {
    choose|i: int| 0 <= i < s.len() && #[trigger] s[i].id == id
}

/// The session carrying `id`.
pub open spec fn session_at(s: Seq<SessionModel>, id: Seq<char>) -> SessionModel {
    s[index_of_id(s, id)]
}

/// The epoch of the session carrying `id`.
pub open spec fn epoch_at(s: Seq<SessionModel>, id: Seq<char>) -> u64 {
    session_at(s, id).epoch
}

/// At most one session per group id.
pub open spec fn ids_distinct(s: Seq<SessionModel>) -> bool {
    forall|i: int, j: int|
        0 <= i < j < s.len() ==> (#[trigger] s[i]).id != (#[trigger] s[j]).id
}

/// With distinct ids, the session found at a matching index is the session
/// the lookup spec functions speak of.
pub proof fn lemma_id_index(s: Seq<SessionModel>, id: Seq<char>, i: int)
    requires
        ids_distinct(s),
        0 <= i < s.len(),
        s[i].id == id,
    ensures
        contains_id(s, id),
        index_of_id(s, id) == i,
        session_at(s, id) == s[i],
{
    assert(contains_id(s, id));
    let j = index_of_id(s, id);
    assert(0 <= j < s.len() && s[j].id == id);
    if i < j {
        assert(s[i].id != s[j].id);
    } else if j < i {
        assert(s[j].id != s[i].id);
    }
}

/// Replacing the session at index `i` by one with the same id keeps the ids
/// distinct, rebinds that id to the new session, and leaves every other id
/// bound as before.
pub proof fn lemma_update_session(s: Seq<SessionModel>, i: int, m: SessionModel)
    requires
        ids_distinct(s),
        0 <= i < s.len(),
        m.id == s[i].id,
    ensures
        ids_distinct(s.update(i, m)),
        contains_id(s.update(i, m), m.id),
        session_at(s.update(i, m), m.id) == m,
        forall|id: Seq<char>| contains_id(s.update(i, m), id) == contains_id(s, id),
        forall|id: Seq<char>|
            id != m.id && contains_id(s, id) ==> session_at(s.update(i, m), id) == session_at(
                s,
                id,
            ),
{
    let t = s.update(i, m);
    assert forall|id: Seq<char>| contains_id(t, id) == contains_id(s, id) by {
        if contains_id(t, id) {
            let k = choose|k: int| 0 <= k < t.len() && #[trigger] t[k].id == id;
            if k == i {
                assert(s[i].id == id);
            } else {
                assert(s[k].id == id);
            }
            assert(contains_id(s, id));
        }
        if contains_id(s, id) {
            let k = choose|k: int| 0 <= k < s.len() && #[trigger] s[k].id == id;
            if k == i {
                assert(t[i].id == id);
            } else {
                assert(t[k].id == id);
            }
            assert(contains_id(t, id));
        }
    }
    lemma_id_index(t, m.id, i);
    assert forall|id: Seq<char>|
        id != m.id && contains_id(s, id) implies session_at(t, id) == session_at(s, id) by {
        let k = index_of_id(s, id);
        assert(0 <= k < s.len() && s[k].id == id);
        assert(k != i);
        lemma_id_index(s, id, k);
        lemma_id_index(t, id, k);
    }
}

/// Appending a session under a fresh id keeps the ids distinct, binds the
/// new id to the new session, and leaves every other id bound as before.
pub proof fn lemma_push_session(s: Seq<SessionModel>, m: SessionModel)
    requires
        ids_distinct(s),
        !contains_id(s, m.id),
    ensures
        ids_distinct(s.push(m)),
        contains_id(s.push(m), m.id),
        session_at(s.push(m), m.id) == m,
        forall|id: Seq<char>|
            id != m.id ==> contains_id(s.push(m), id) == contains_id(s, id),
        forall|id: Seq<char>|
            id != m.id && contains_id(s, id) ==> session_at(s.push(m), id) == session_at(s, id),
{
    let t = s.push(m);
    assert forall|i: int, j: int|
        0 <= i < j < t.len() implies (#[trigger] t[i]).id != (#[trigger] t[j]).id by {
        if j == s.len() {
            assert(t[i] == s[i]);
            if t[i].id == m.id {
                assert(contains_id(s, m.id));
            }
        } else {
            assert(t[i] == s[i] && t[j] == s[j]);
        }
    }
    lemma_id_index(t, m.id, s.len() as int);
    assert forall|id: Seq<char>|
        id != m.id implies contains_id(t, id) == contains_id(s, id) by {
        if contains_id(t, id) {
            let k = choose|k: int| 0 <= k < t.len() && #[trigger] t[k].id == id;
            assert(k != s.len());
            assert(s[k].id == id);
        }
        if contains_id(s, id) {
            let k = choose|k: int| 0 <= k < s.len() && #[trigger] s[k].id == id;
            assert(t[k].id == id);
        }
    }
    assert forall|id: Seq<char>|
        id != m.id && contains_id(s, id) implies session_at(t, id) == session_at(s, id) by {
        let k = index_of_id(s, id);
        assert(0 <= k < s.len() && s[k].id == id);
        lemma_id_index(s, id, k);
        lemma_id_index(t, id, k);
    }
}

/// Law: a group that was just created — registered under a fresh id with
/// epoch 0 — reports epoch 0.
pub proof fn lemma_epoch_after_create(s: Seq<SessionModel>, m: SessionModel)
    requires
        ids_distinct(s),
        !contains_id(s, m.id),
        m.epoch == 0,
    ensures
        contains_id(s.push(m), m.id),
        epoch_at(s.push(m), m.id) == 0,
{
    lemma_push_session(s, m);
}

/// Law: one successfully merged commit advances a group's epoch by exactly
/// one, and touches no other group; in particular a fresh group (epoch 0)
/// reaches epoch 1 after its first self-issued commit.
pub proof fn lemma_epoch_after_commit(s: Seq<SessionModel>, i: int, m: SessionModel)
    requires
        ids_distinct(s),
        0 <= i < s.len(),
        m.id == s[i].id,
        m.epoch == epoch_at(s, m.id) + 1,
    ensures
        epoch_at(s.update(i, m), m.id) == epoch_at(s, m.id) + 1,
        epoch_at(s, m.id) == 0 ==> epoch_at(s.update(i, m), m.id) == 1,
        forall|id: Seq<char>|
            id != m.id && contains_id(s, id) ==> epoch_at(s.update(i, m), id) == epoch_at(s, id),
{
    lemma_update_session(s, i, m);
}

/// Maps each locally chosen group id to at most one session, and owns every
/// session the client holds.
pub struct SessionRegistry {
    pub sessions: Vec<GroupSession>,
}

impl SessionRegistry {
    /// The sequence of session models, in registration order.
    pub open spec fn models(self) -> Seq<SessionModel> {
        self.sessions@.map_values(|gs: GroupSession| gs.model())
    }

    /// Registry invariant: ids are pairwise distinct.
    pub open spec fn wf(self) -> bool {
        ids_distinct(self.models())
    }

    pub fn new() -> (r: SessionRegistry)
        ensures
            r.wf(),
            r.models() == Seq::<SessionModel>::empty(),
    {
        let r = SessionRegistry { sessions: Vec::new() };
        proof {
            assert(r.models() =~= Seq::<SessionModel>::empty());
        }
        r
    }

    /// Linear lookup of a group id.
    pub fn find(&self, id: &String) -> (r: Option<usize>)
        ensures
            match r {
                Some(i) => i < self.models().len() && self.models()[i as int].id == id@,
                None => !contains_id(self.models(), id@),
            },
    {
        let n = self.sessions.len();
        let mut i: usize = 0;
        while i < n
            invariant
                n == self.models().len(),
                i <= n,
                forall|j: int| 0 <= j < i ==> (#[trigger] self.models()[j]).id != id@,
            decreases n - i,
        {
            if self.sessions[i].id == *id {
                return Some(i);
            }
            i = i + 1;
        }
        None
    }

    /// Registers a session under an id not yet present.
    pub fn insert(&mut self, session: GroupSession)
        requires
            !contains_id(old(self).models(), session.model().id),
        ensures
            final(self).models() == old(self).models().push(session.model()),
    {
        self.sessions.push(session);
        proof {
            assert(self.models() =~= old(self).models().push(session.model()));
        }
    }

    /// Takes the session at index `i` out, to be mutated and put back.
    pub fn take(&mut self, i: usize) -> (s: GroupSession)
        requires
            i < old(self).models().len(),
        ensures
            s.model() == old(self).models()[i as int],
            final(self).models() == old(self).models().remove(i as int),
    {
        let s = self.sessions.remove(i);
        proof {
            assert(self.models() =~= old(self).models().remove(i as int));
        }
        s
    }

    /// Puts a session back at index `i`.
    pub fn put(&mut self, i: usize, session: GroupSession)
        requires
            i <= old(self).models().len(),
        ensures
            final(self).models() == old(self).models().insert(
                i as int,
                session.model(),
            ),
    {
        self.sessions.insert(i, session);
        proof {
            assert(self.models() =~= old(self).models().insert(i as int, session.model()));
        }
    }
}

} // verus!
