//! The set of bot admins. The master admin always belongs to it.

use vstd::prelude::*;
use crate::catalog::{contains_id, ids_of, not_in_seq, other_than, parse_ids, split_by};
use crate::text::{id_of, ParseIdError};

verus! {

/// The user id of the master admin, who can never be removed.
pub const MASTER_ADMIN: u64 = 224597366324461568;

/// The admins, as read from the store, with the master admin always present.
pub struct AdminSet {
    ids: Vec<u64>,
}

impl View for AdminSet {
    type V = Seq<u64>;

    closed spec fn view(&self) -> Seq<u64> {
        self.ids@
    }
}

impl AdminSet {
    /// The master admin is a member.
    pub closed spec fn wf(&self) -> bool {
        self.ids@.contains(MASTER_ADMIN)
    }

    /// The admin set made of the stored `members`, seeded with the master admin
    /// when they lack it. The flag says whether the seeding took place, so that
    /// the store can be told.
    pub fn seeded(members: Vec<u64>) -> (r: (Self, bool))
        ensures
            r.0.wf(),
            r.1 == !members@.contains(MASTER_ADMIN),
            r.0@ == (if r.1 {
                members@.push(MASTER_ADMIN)
            } else {
                members@
            }),
    {
        let mut ids = members;
        if contains_id(&ids, MASTER_ADMIN) {
            (AdminSet { ids }, false)
        } else {
            ids.push(MASTER_ADMIN);
            assert(ids@.last() == MASTER_ADMIN);
            (AdminSet { ids }, true)
        }
    }

    /// Reads the admin set from the entries that the store holds.
    pub fn from_entries(entries: &Vec<String>) -> (r: Result<(Self, bool), ParseIdError>)
        ensures
            r is Ok <==> forall|i: int| 0 <= i < entries@.len() ==> #[trigger] id_of(entries@[i]@) is Ok,
            r matches Ok(p) ==> p.0.wf() && p.1 == !ids_of(entries@).contains(MASTER_ADMIN) && p.0@ == (
            if p.1 {
                ids_of(entries@).push(MASTER_ADMIN)
            } else {
                ids_of(entries@)
            }),
    {
        match parse_ids(entries) {
            Ok(ids) => Ok(AdminSet::seeded(ids)),
            Err(e) => Err(e),
        }
    }

    /// Adds `id`; returns whether the set changed.
    pub fn add(&mut self, id: u64) -> (r: bool)
        requires
            old(self).wf(),
        ensures
            final(self).wf(),
            r == !old(self)@.contains(id),
            final(self)@ == (if r {
                old(self)@.push(id)
            } else {
                old(self)@
            }),
    {
        if contains_id(&self.ids, id) {
            false
        } else {
            let ghost before = self.ids@;
            self.ids.push(id);
            proof {
                let k = choose|k: int| 0 <= k < before.len() && before[k] == MASTER_ADMIN;
                assert(self.ids@[k] == MASTER_ADMIN);
            }
            true
        }
    }

    /// Removes `id`, unless it is the master admin, who stays; returns whether
    /// the set changed.
    pub fn remove(&mut self, id: u64) -> (r: bool)
        requires
            old(self).wf(),
        ensures
            final(self).wf(),
            id == MASTER_ADMIN ==> !r && final(self)@ == old(self)@,
            id != MASTER_ADMIN ==> r == old(self)@.contains(id) && final(self)@ == old(self)@.filter(
                other_than(id),
            ),
    {
        if id == MASTER_ADMIN {
            return false;
        }
        let keys = vec![id];
        let ghost one = keys@;
        proof {
            assert(one[0] == id);
            assert forall|x: u64| one.contains(x) <==> x == id by {
                if one.contains(x) {
                    let k = choose|k: int| 0 <= k < one.len() && one[k] == x;
                }
            }
            assert(not_in_seq(one) =~= other_than(id));
            let k = choose|k: int| 0 <= k < self.ids@.len() && self.ids@[k] == MASTER_ADMIN;
            self.ids@.lemma_filter_contains(other_than(id), k);
        }
        let r = contains_id(&self.ids, id);
        let (kept, _gone) = split_by(&self.ids, &keys);
        self.ids = kept;
        r
    }

    /// Whether `id` is an admin.
    pub fn is_admin(&self, id: u64) -> (r: bool)
        ensures
            r == self@.contains(id),
    {
        contains_id(&self.ids, id)
    }

    /// The admins, in store order.
    pub fn ids(&self) -> (r: &Vec<u64>)
        ensures
            r@ == self@,
    {
        &self.ids
    }
}

} // verus!
