//! Two-phase removal of drained entities.
//!
//! An entity whose health is gone is first marked — its identifier joins a
//! pending list — and only a later sweep actually removes its body and
//! record. The pending list holds an entity at most once, a marked entity
//! never returns to life, and the list is cleared once the sweep has
//! consumed it.

use vstd::prelude::*;

verus! {

/// The pending-removal list: entity identifiers collected during one pass
/// and consumed by the sweep.
#[derive(Debug)]
pub struct ToExile {
    pub entity_list: Vec<u64>,
}

/// The predicate a sweep filters the world's entities through: listed for
/// removal.
pub open spec fn marked_pred(to_exile: ToExile) -> spec_fn(u64) -> bool {
    |e: u64| to_exile.entity_list@.contains(e)
}

impl ToExile {
    /// An entity appears at most once.
    pub open spec fn wf(self) -> bool {
        forall|i: int, j: int|
            0 <= i < j < self.entity_list@.len() ==> self.entity_list@[i]
                != self.entity_list@[j]
    }

    pub open spec fn contains_spec(self, entity: u64) -> bool {
        self.entity_list@.contains(entity)
    }

    pub fn new() -> (r: ToExile)
        ensures
            r.entity_list@.len() == 0,
            r.wf(),
    {
        ToExile { entity_list: Vec::new() }
    }

    /// Whether an entity is already marked for removal.
    pub fn contains(&self, entity: u64) -> (r: bool)
        ensures
            r == self.contains_spec(entity),
    {
        let mut i: usize = 0;
        while i < self.entity_list.len()
            invariant
                0 <= i <= self.entity_list@.len(),
                forall|k: int| 0 <= k < i ==> self.entity_list@[k] != entity,
            decreases self.entity_list@.len() - i,
        {
            if self.entity_list[i] == entity {
                return true;
            }
            i = i + 1;
        }
        false
    }

    /// Mark an entity for removal; marking an already marked entity changes
    /// nothing, so the list never holds a duplicate.
    pub fn mark(&mut self, entity: u64)
        requires
            old(self).wf(),
        ensures
            final(self).wf(),
            final(self).contains_spec(entity),
            final(self).entity_list@ == (if old(self).contains_spec(entity) {
                old(self).entity_list@
            } else {
                old(self).entity_list@.push(entity)
            }),
    {
        if !self.contains(entity) {
            self.entity_list.push(entity);
            proof {
                assert(self.entity_list@[self.entity_list@.len() - 1] == entity);
                assert(self.entity_list@.contains(entity));
            }
        }
    }

    /// Empty the list after a sweep has consumed it.
    pub fn clear(&mut self)
        ensures
            final(self).entity_list@.len() == 0,
            final(self).wf(),
    {
        self.entity_list = Vec::new();
    }
}

} // verus!
