//! The agent registry: one record per admin identity.

use vstd::prelude::*;

use crate::error::Errors;
use crate::identity::{sentinel_bytes, Pubkey};

verus! {

/// The record kept for one agent.
#[derive(Clone, Copy, Debug)]
pub struct AgentData {
    /// The identity that administers the agent; fixed at creation.
    pub admin: Pubkey,
    /// The key currently authorized to sign trade requests for the agent.
    pub tee_key: Pubkey,
}

impl AgentData {
    /// Replaces the TEE key of the record. No authorization is checked here:
    /// that is the caller's duty.
    pub fn set_tee_key(&mut self, new_key: Pubkey)
        ensures
            final(self).tee_key == new_key,
            final(self).admin == old(self).admin,
    {
        self.tee_key = new_key;
    }
}

/// Whether position `i` of `records` holds the record of `admin`.
spec fn held_at(records: Seq<AgentData>, admin: Seq<u8>, i: int) -> bool {
    0 <= i < records.len() && records[i].admin@ == admin
}

/// Whether no two positions of `records` hold the same admin.
spec fn admins_distinct(records: Seq<AgentData>) -> bool {
    forall|i: int, j: int|
        0 <= i < j < records.len() ==> records[i].admin@ != records[j].admin@
}

/// The mapping from admin identity to registered TEE key that `records` stands for.
spec fn records_as_map(records: Seq<AgentData>) -> Map<Seq<u8>, Seq<u8>> {
    Map::new(
        |admin: Seq<u8>| exists|i: int| held_at(records, admin, i),
        |admin: Seq<u8>| records[choose|i: int| held_at(records, admin, i)].tee_key@,
    )
}

/// With distinct admins, the record found at a position is the one the map names.
proof fn lemma_map_at(records: Seq<AgentData>, i: int)
    requires
        admins_distinct(records),
        0 <= i < records.len(),
    ensures
        records_as_map(records).contains_key(records[i].admin@),
        records_as_map(records)[records[i].admin@] == records[i].tee_key@,
{
    let admin = records[i].admin@;
    assert(held_at(records, admin, i));
    let k = choose|k: int| held_at(records, admin, k);
    assert(k == i) by {
        if k < i {
            assert(records[k].admin@ != records[i].admin@);
        } else if i < k {
            assert(records[i].admin@ != records[k].admin@);
        }
    }
}

/// Appending the record of a new admin adds exactly that entry to the map.
proof fn lemma_map_push(records: Seq<AgentData>, record: AgentData)
    requires
        admins_distinct(records),
        !records_as_map(records).contains_key(record.admin@),
    ensures
        admins_distinct(records.push(record)),
        records_as_map(records.push(record)) == records_as_map(records).insert(
            record.admin@,
            record.tee_key@,
        ),
{
    let grown = records.push(record);
    assert forall|i: int, j: int| 0 <= i < j < grown.len() implies grown[i].admin@
        != grown[j].admin@ by {
        if j == records.len() {
            assert(!held_at(records, record.admin@, i));
        }
    }
    let before = records_as_map(records);
    let after = records_as_map(grown);
    let expected = before.insert(record.admin@, record.tee_key@);
    assert forall|admin: Seq<u8>| after.contains_key(admin) <==> expected.contains_key(
        admin,
    ) by {
        if after.contains_key(admin) {
            let i = choose|i: int| held_at(grown, admin, i);
            if i < records.len() {
                assert(held_at(records, admin, i));
            }
        }
        if expected.contains_key(admin) {
            if admin == record.admin@ {
                assert(held_at(grown, admin, records.len() as int));
            } else {
                let i = choose|i: int| held_at(records, admin, i);
                assert(held_at(grown, admin, i));
            }
        }
    }
    assert forall|admin: Seq<u8>| after.contains_key(admin) implies after[admin]
        == expected[admin] by {
        let i = choose|i: int| held_at(grown, admin, i);
        lemma_map_at(grown, i);
        if i < records.len() {
            lemma_map_at(records, i);
        }
    }
    assert(after =~= expected);
}

/// Replacing the TEE key at one position rewrites exactly that entry of the map.
proof fn lemma_map_update(records: Seq<AgentData>, i: int, record: AgentData)
    requires
        admins_distinct(records),
        0 <= i < records.len(),
        record.admin@ == records[i].admin@,
    ensures
        admins_distinct(records.update(i, record)),
        records_as_map(records.update(i, record)) == records_as_map(records).insert(
            record.admin@,
            record.tee_key@,
        ),
{
    let changed = records.update(i, record);
    assert forall|a: int, b: int| 0 <= a < b < changed.len() implies changed[a].admin@
        != changed[b].admin@ by {
        assert(records[a].admin@ != records[b].admin@);
    }
    let before = records_as_map(records);
    let after = records_as_map(changed);
    let expected = before.insert(record.admin@, record.tee_key@);
    assert forall|admin: Seq<u8>| after.contains_key(admin) <==> expected.contains_key(
        admin,
    ) by {
        if after.contains_key(admin) {
            let k = choose|k: int| held_at(changed, admin, k);
            assert(held_at(records, admin, k));
        }
        if expected.contains_key(admin) {
            if admin == record.admin@ {
                assert(held_at(changed, admin, i));
            } else {
                let k = choose|k: int| held_at(records, admin, k);
                assert(held_at(changed, admin, k));
            }
        }
    }
    assert forall|admin: Seq<u8>| after.contains_key(admin) implies after[admin]
        == expected[admin] by {
        let k = choose|k: int| held_at(changed, admin, k);
        lemma_map_at(changed, k);
        lemma_map_at(records, k);
    }
    assert(after =~= expected);
}

/// The registry of agents. Its view maps each registered admin identity to
/// the TEE key registered for it; an admin has at most one record.
pub struct AgentRegistry {
    records: Vec<AgentData>,
}

impl View for AgentRegistry {
    type V = Map<Seq<u8>, Seq<u8>>;

    closed spec fn view(&self) -> Map<Seq<u8>, Seq<u8>> {
        records_as_map(self.records@)
    }
}

impl AgentRegistry {
    /// No admin has two records.
    #[verifier::type_invariant]
    spec fn well_formed(self) -> bool {
        admins_distinct(self.records@)
    }

    /// A registry without records.
    pub fn new() -> (registry: AgentRegistry)
        ensures
            registry@ == Map::<Seq<u8>, Seq<u8>>::empty(),
    {
        let registry = AgentRegistry { records: Vec::new() };
        assert(registry@ =~= Map::<Seq<u8>, Seq<u8>>::empty()) by {
            assert forall|admin: Seq<u8>| !registry@.contains_key(admin) by {
                assert(forall|i: int| !held_at(registry.records@, admin, i));
            }
        }
        registry
    }

    /// The position of the record of `admin`, if there is one.
    fn position(&self, admin: &Pubkey) -> (slot: Option<usize>)
        ensures
            match slot {
                Some(i) => held_at(self.records@, admin@, i as int),
                None => forall|i: int| !held_at(self.records@, admin@, i),
            },
    {
        let mut i: usize = 0;
        while i < self.records.len()
            invariant
                0 <= i <= self.records@.len(),
                forall|j: int| 0 <= j < i ==> self.records@[j].admin@ != admin@,
            decreases self.records@.len() - i,
        {
            if self.records[i].admin == *admin {
                return Some(i);
            }
            i += 1;
        }
        None
    }

    /// Whether a record exists for `admin`.
    pub fn contains(&self, admin: &Pubkey) -> (found: bool)
        ensures
            found == self@.contains_key(admin@),
    {
        match self.position(admin) {
            Some(_) => true,
            None => false,
        }
    }

    /// Creates the record of `admin`, with the sentinel as its TEE key.
    ///
    /// Refused with `AlreadyExists` when `admin` has a record; the registry is
    /// then unchanged.
    pub fn create(&mut self, admin: Pubkey) -> (created: Result<AgentData, Errors>)
        ensures
            match created {
                Ok(record) => !old(self)@.contains_key(admin@) && record.admin == admin
                    && record.tee_key@ == sentinel_bytes() && final(self)@ == old(self)@.insert(
                    admin@,
                    sentinel_bytes(),
                ),
                Err(e) => e == Errors::AlreadyExists && old(self)@.contains_key(admin@)
                    && final(self)@ == old(self)@,
            },
    {
        proof {
            use_type_invariant(&*self);
        }
        match self.position(&admin) {
            Some(_) => Err(Errors::AlreadyExists),
            None => {
                let record = AgentData { admin, tee_key: Pubkey::sentinel() };
                proof {
                    lemma_map_push(self.records@, record);
                }
                // The records leave the registry while they change, so that
                // the registry is well formed whenever it is borrowed.
                let mut records: Vec<AgentData> = Vec::new();
                core::mem::swap(&mut self.records, &mut records);
                records.push(record);
                core::mem::swap(&mut self.records, &mut records);
                Ok(record)
            },
        }
    }

    /// The record of `admin`. Refused with `NotFound` when there is none.
    pub fn get(&self, admin: &Pubkey) -> (found: Result<AgentData, Errors>)
        ensures
            match found {
                Ok(record) => self@.contains_key(admin@) && record.admin@ == admin@
                    && record.tee_key@ == self@[admin@],
                Err(e) => e == Errors::NotFound && !self@.contains_key(admin@),
            },
    {
        proof {
            use_type_invariant(self);
        }
        match self.position(admin) {
            Some(i) => {
                proof {
                    lemma_map_at(self.records@, i as int);
                }
                Ok(self.records[i])
            },
            None => Err(Errors::NotFound),
        }
    }

    /// Replaces the TEE key registered for `admin`. No authorization is
    /// checked here: that is the caller's duty.
    ///
    /// Refused with `NotFound` when `admin` has no record; the registry is
    /// then unchanged.
    pub fn set_tee_key(&mut self, admin: &Pubkey, new_key: Pubkey) -> (done: Result<(), Errors>)
        ensures
            match done {
                Ok(_) => old(self)@.contains_key(admin@) && final(self)@ == old(self)@.insert(
                    admin@,
                    new_key@,
                ),
                Err(e) => e == Errors::NotFound && !old(self)@.contains_key(admin@)
                    && final(self)@ == old(self)@,
            },
    {
        proof {
            use_type_invariant(&*self);
        }
        match self.position(admin) {
            Some(i) => {
                let mut record = self.records[i];
                record.set_tee_key(new_key);
                proof {
                    lemma_map_update(self.records@, i as int, record);
                }
                // As in `create`: the records change outside the registry.
                let mut records: Vec<AgentData> = Vec::new();
                core::mem::swap(&mut self.records, &mut records);
                records.set(i, record);
                core::mem::swap(&mut self.records, &mut records);
                Ok(())
            },
            None => Err(Errors::NotFound),
        }
    }
}

} // verus!
