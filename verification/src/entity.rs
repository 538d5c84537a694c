//! Entity identity as the editor sees it: an index plus the generation that
//! tells a recycled index apart from the entity that held it before.

use vstd::prelude::*;

verus! {

/// Identifier of an entity in the scene world.
#[derive(Debug, Clone, Copy, PartialEq, Eq, Hash, Structural)]
pub struct EntityId {
    pub index: u64,
    pub generation: u32,
}

impl View for EntityId {
    type V = (u64, u32);

    open spec fn view(&self) -> (u64, u32) {
        (self.index, self.generation)
    }
}

/// Two entity ids with the same index and generation are the same id.
pub proof fn lemma_entity_view_injective(a: EntityId, b: EntityId)
    ensures
        a@ == b@ <==> a == b,
{
}

impl EntityId {
    /// An id with the given index and generation.
    pub fn with_generation(index: u64, generation: u32) -> (id: EntityId)
        ensures
            id.index == index,
            id.generation == generation,
    {
        EntityId { index, generation }
    }

    /// The entity's index — the number the editor shows for it.
    pub fn value(&self) -> (value: u64)
        ensures
            value == self.index,
    {
        self.index
    }

    /// The id whose view is `key`.
    pub(crate) fn from_key(key: (u64, u32)) -> (id: EntityId)
        ensures
            id@ == key,
    {
        EntityId { index: key.0, generation: key.1 }
    }
}

} // verus!
