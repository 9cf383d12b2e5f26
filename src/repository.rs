use vstd::prelude::*;

use crate::failure::StoreFailure;
use crate::models::{Timestamp, User};

verus! {

/// The user with identifier `id` in `rows`, if any (the latest such row).
pub open spec fn lookup(rows: Seq<User>, id: u128) -> Option<User>
    decreases rows.len(),
{
    if rows.len() == 0 {
        None
    } else if rows.last().id == id {
        Some(rows.last())
    } else {
        lookup(rows.drop_last(), id)
    }
}

/// Some row of `rows` has the email `email`.
pub open spec fn email_taken(rows: Seq<User>, email: Seq<char>) -> bool {
    exists|i: int| 0 <= i < rows.len() && (#[trigger] rows[i]).email@ == email
}

/// `rows` with every row of identifier `id` taken out, the others in order.
pub open spec fn without_id(rows: Seq<User>, id: u128) -> Seq<User>
    decreases rows.len(),
{
    if rows.len() == 0 {
        rows
    } else if rows.last().id == id {
        without_id(rows.drop_last(), id)
    } else {
        without_id(rows.drop_last(), id).push(rows.last())
    }
}

/// No user is found under an identifier after every row that had it is taken out.
pub proof fn lemma_lookup_without_id(rows: Seq<User>, id: u128)
    ensures
        lookup(without_id(rows, id), id) is None,
    decreases rows.len(),
{
    if rows.len() > 0 {
        lemma_lookup_without_id(rows.drop_last(), id);
        let rest = without_id(rows.drop_last(), id);
        if rows.last().id != id {
            assert(rest.push(rows.last()).drop_last() =~= rest);
        }
    }
}

proof fn lemma_lookup_is_some(rows: Seq<User>, id: u128)
    ensures
        lookup(rows, id) is Some <==> exists|i: int| 0 <= i < rows.len() && (#[trigger] rows[i]).id == id,
        lookup(rows, id) is Some ==> lookup(rows, id)->Some_0.id == id,
    decreases rows.len(),
{
    if rows.len() > 0 {
        let prefix = rows.drop_last();
        lemma_lookup_is_some(prefix, id);
        if rows.last().id != id {
            if exists|i: int| 0 <= i < rows.len() && (#[trigger] rows[i]).id == id {
                let i = choose|i: int| 0 <= i < rows.len() && (#[trigger] rows[i]).id == id;
                assert(prefix[i] == rows[i]);
            }
            assert forall|i: int| 0 <= i < prefix.len() && (#[trigger] prefix[i]).id == id implies
                rows[i].id == id by {}
        }
    }
}

/// The in-memory table of users: the datastore's `users` table with its two
/// uniqueness rules (identifiers and emails), identifiers assigned by the
/// table itself and never reused.
pub struct UserTable {
    rows: Vec<User>,
    next_id: u128,
}

impl UserTable {
    /// The rows of the table, in order of insertion.
    pub closed spec fn rows(&self) -> Seq<User> {
        self.rows@
    }

    /// Whether the table can still assign a fresh identifier.
    pub closed spec fn has_room(&self) -> bool {
        self.next_id < u128::MAX
    }

    /// Identifiers are non-zero, distinct and below the next one to be
    /// assigned; emails are distinct.
    pub closed spec fn wf(&self) -> bool {
        &&& self.next_id >= 1
        &&& forall|i: int| 0 <= i < self.rows@.len() ==> 0 < (#[trigger] self.rows@[i]).id < self.next_id
        &&& forall|i: int, j: int|
            0 <= i < self.rows@.len() && 0 <= j < self.rows@.len() && i != j
                ==> (#[trigger] self.rows@[i]).id != (#[trigger] self.rows@[j]).id
        &&& forall|i: int, j: int|
            0 <= i < self.rows@.len() && 0 <= j < self.rows@.len() && i != j
                ==> (#[trigger] self.rows@[i]).email@ != (#[trigger] self.rows@[j]).email@
    }

    /// An empty table.
    pub fn new() -> (r: Self)
        ensures
            r.wf(),
            r.has_room(),
            r.rows() == Seq::<User>::empty(),
    {
        UserTable { rows: Vec::new(), next_id: 1 }
    }

    /// Inserts a user and returns the created row. Fails with
    /// `ConstraintViolation` when the email is taken, and with `Other` when no
    /// identifier is left to assign.
    pub fn insert(&mut self, name: String, email: String, now: Timestamp) -> (r: Result<User, StoreFailure>)
        requires
            old(self).wf(),
        ensures
            final(self).wf(),
            email_taken(old(self).rows(), email@) ==> r == Err::<User, StoreFailure>(StoreFailure::ConstraintViolation),
            !email_taken(old(self).rows(), email@) && !old(self).has_room() ==> r == Err::<User, StoreFailure>(StoreFailure::Other),
            !email_taken(old(self).rows(), email@) && old(self).has_room() ==> {
                &&& r is Ok
                &&& r->Ok_0.id != 0
                &&& r->Ok_0.name == name
                &&& r->Ok_0.email == email
                &&& r->Ok_0.created_at == Some(now)
                &&& r->Ok_0.updated_at == Some(now)
                &&& lookup(old(self).rows(), r->Ok_0.id) is None
                &&& final(self).rows() == old(self).rows().push(r->Ok_0)
            },
            r is Err ==> final(self).rows() == old(self).rows(),
    {
        let mut i: usize = 0;
        while i < self.rows.len()
            invariant
                self.wf(),
                i <= self.rows@.len(),
                forall|k: int| 0 <= k < i ==> (#[trigger] self.rows@[k]).email@ != email@,
            decreases self.rows@.len() - i,
        {
            if self.rows[i].email == email {
                return Err(StoreFailure::ConstraintViolation);
            }
            i = i + 1;
        }
        if self.next_id == u128::MAX {
            return Err(StoreFailure::Other);
        }
        let id = self.next_id;
        proof {
            lemma_lookup_is_some(self.rows@, id);
        }
        let user = User { id, name, email, created_at: Some(now), updated_at: Some(now) };
        let created = user.copy();
        self.rows.push(user);
        self.next_id = id + 1;
        Ok(created)
    }

    /// The user with identifier `id`, or `NotFound`.
    pub fn find_by_id(&self, id: u128) -> (r: Result<User, StoreFailure>)
        requires
            self.wf(),
        ensures
            lookup(self.rows(), id) matches Some(u) ==> r == Ok::<User, StoreFailure>(u),
            lookup(self.rows(), id) is None ==> r == Err::<User, StoreFailure>(StoreFailure::NotFound),
    {
        let mut i: usize = self.rows.len();
        assert(self.rows@.subrange(0, i as int) =~= self.rows@);
        while i > 0
            invariant
                i <= self.rows@.len(),
                lookup(self.rows@, id) == lookup(self.rows@.subrange(0, i as int), id),
            decreases i,
        {
            let prefix = Ghost(self.rows@.subrange(0, i as int));
            assert(prefix@.drop_last() =~= self.rows@.subrange(0, i - 1));
            if self.rows[i - 1].id == id {
                return Ok(self.rows[i - 1].copy());
            }
            i = i - 1;
        }
        Err(StoreFailure::NotFound)
    }

    /// Every user, in order of insertion; empty when the table is.
    pub fn find_all(&self) -> (r: Vec<User>)
        ensures
            r@ == self.rows(),
    {
        let mut out: Vec<User> = Vec::new();
        let mut i: usize = 0;
        while i < self.rows.len()
            invariant
                i <= self.rows@.len(),
                out@ == self.rows@.subrange(0, i as int),
            decreases self.rows@.len() - i,
        {
            out.push(self.rows[i].copy());
            i = i + 1;
            assert(out@ =~= self.rows@.subrange(0, i as int));
        }
        assert(self.rows@.subrange(0, i as int) =~= self.rows@);
        out
    }

    /// Removes the user with identifier `id`. Succeeds whether or not such a
    /// user existed: the delete is idempotent.
    pub fn delete_by_id(&mut self, id: u128) -> (r: Result<(), StoreFailure>)
        requires
            old(self).wf(),
        ensures
            final(self).wf(),
            final(self).has_room() == old(self).has_room(),
            final(self).rows() == without_id(old(self).rows(), id),
            r is Ok,
    {
        let ghost before = self.rows@;
        let ghost mut idx: Seq<int> = Seq::empty();
        let mut kept: Vec<User> = Vec::new();
        let mut i: usize = 0;
        while i < self.rows.len()
            invariant
                self.rows@ == before,
                self.wf(),
                i <= before.len(),
                kept@ == without_id(before.subrange(0, i as int), id),
                idx.len() == kept@.len(),
                forall|j: int| 0 <= j < idx.len() ==> 0 <= #[trigger] idx[j] < i && kept@[j] == before[idx[j]],
                forall|j: int, k: int| 0 <= j < k < idx.len() ==> #[trigger] idx[j] < #[trigger] idx[k],
            decreases before.len() - i,
        {
            assert(before.subrange(0, i + 1).drop_last() =~= before.subrange(0, i as int));
            if self.rows[i].id != id {
                kept.push(self.rows[i].copy());
                proof {
                    idx = idx.push(i as int);
                }
            }
            i = i + 1;
        }
        assert(before.subrange(0, i as int) =~= before);
        assert forall|j: int, k: int|
            0 <= j < kept@.len() && 0 <= k < kept@.len() && j != k implies
                (#[trigger] kept@[j]).id != (#[trigger] kept@[k]).id
                && kept@[j].email@ != kept@[k].email@ by {
            assert(idx[j] != idx[k]);
            assert(kept@[j] == before[idx[j]]);
            assert(kept@[k] == before[idx[k]]);
        }
        assert forall|j: int| 0 <= j < kept@.len() implies
            0 < (#[trigger] kept@[j]).id < self.next_id by {
            assert(kept@[j] == before[idx[j]]);
        }
        self.rows = kept;
        Ok(())
    }
}

} // verus!
