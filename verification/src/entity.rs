//! Entity identifiers and the registry of living entities.
use std::collections::HashSet;
use vstd::prelude::*;

verus! {

broadcast use {vstd::set::group_set_axioms, vstd::std_specs::hash::group_hash_axioms};

/// A unique entity identifier.
#[derive(Debug, Clone, Copy, PartialEq, Eq, Hash, Structural)]
pub struct EntityId(pub u64);

/// Hands out fresh entity ids and tracks which entities are alive.
pub struct EntityManager {
    next_id: u64,
    alive: HashSet<u64>,
}

impl EntityManager {
    /// The manager's internal invariant: finitely many entities are alive,
    /// and every living id is below the next id to hand out.
    pub closed spec fn wf(&self) -> bool {
        &&& self.alive@.finite()
        &&& forall|k: u64| #[trigger] self.alive@.contains(k) ==> k < self.next_id
    }

    /// The set of living entities.
    pub closed spec fn alive_set(&self) -> Set<EntityId> {
        self.alive@.map(|k: u64| EntityId(k))
    }

    /// The id the next spawn will hand out.
    pub closed spec fn next_id(&self) -> u64 {
        self.next_id
    }

    /// The living set holds an entity exactly when its number is stored,
    /// and is as large as the stored set.
    proof fn lemma_alive_set(&self)
        requires
            self.alive@.finite(),
        ensures
            forall|e: EntityId| #[trigger] self.alive_set().contains(e) <==> self.alive@.contains(e.0),
            self.alive_set().finite(),
            self.alive_set().len() == self.alive@.len(),
    {
        let f = |k: u64| EntityId(k);
        assert forall|e: EntityId| #[trigger] self.alive_set().contains(e) <==> self.alive@.contains(e.0) by {
            if self.alive@.contains(e.0) {
                assert(f(e.0) == e);
            }
        }
        assert(vstd::relations::injective_on(f, self.alive@));
        vstd::set_lib::lemma_map_size(self.alive@, self.alive_set(), f);
    }

    pub fn new() -> (m: Self)
        ensures
            m.wf(),
            m.alive_set() == Set::<EntityId>::empty(),
            m.alive_set().finite(),
            m.next_id() == 0,
    {
        let m = Self { next_id: 0, alive: HashSet::new() };
        proof {
            m.lemma_alive_set();
        }
        assert(m.alive_set() =~= Set::<EntityId>::empty());
        m
    }

    /// Spawn a new entity with the next id, which no entity alive or dead has had.
    pub fn spawn(&mut self) -> (id: EntityId)
        requires
            old(self).wf(),
            old(self).next_id() < u64::MAX,
        ensures
            final(self).wf(),
            id == EntityId(old(self).next_id()),
            !old(self).alive_set().contains(id),
            final(self).alive_set() == old(self).alive_set().insert(id),
            final(self).alive_set().finite(),
            final(self).alive_set().len() == old(self).alive_set().len() + 1,
            final(self).next_id() == old(self).next_id() + 1,
    {
        proof {
            old(self).lemma_alive_set();
        }
        let id = EntityId(self.next_id);
        self.alive.insert(self.next_id);
        self.next_id = self.next_id + 1;
        proof {
            self.lemma_alive_set();
            assert(self.alive_set() =~= old(self).alive_set().insert(id));
        }
        id
    }

    /// Remove an entity from the living set; does nothing if it is not alive.
    pub fn despawn(&mut self, id: EntityId)
        requires
            old(self).wf(),
        ensures
            final(self).wf(),
            final(self).alive_set() == old(self).alive_set().remove(id),
            final(self).alive_set().finite(),
            final(self).alive_set().len() == old(self).alive_set().len() - (if old(self).alive_set().contains(id) {
                1int
            } else {
                0int
            }),
            final(self).next_id() == old(self).next_id(),
    {
        proof {
            old(self).lemma_alive_set();
        }
        self.alive.remove(&id.0);
        proof {
            self.lemma_alive_set();
            assert(self.alive_set() =~= old(self).alive_set().remove(id));
        }
    }

    /// Whether the entity is alive.
    pub fn is_alive(&self, id: EntityId) -> (b: bool)
        ensures
            b == self.alive_set().contains(id),
    {
        proof {
            if self.alive@.contains(id.0) {
                assert((|k: u64| EntityId(k))(id.0) == id);
            }
        }
        self.alive.contains(&id.0)
    }

    /// Whether every id has been handed out, so that a further spawn would
    /// overflow the id counter.
    pub fn ids_exhausted(&self) -> (r: bool)
        ensures
            r == (self.next_id() == u64::MAX),
    {
        self.next_id == u64::MAX
    }

    /// Number of living entities.
    pub fn count(&self) -> (n: usize)
        requires
            self.wf(),
        ensures
            n == self.alive_set().len(),
    {
        proof {
            self.lemma_alive_set();
        }
        self.alive.len()
    }
}

impl Default for EntityManager {
    fn default() -> (m: Self)
        ensures
            m.wf(),
            m.alive_set() == Set::<EntityId>::empty(),
            m.next_id() == 0,
    {
        Self::new()
    }
}

/// Spawning and despawning over the set of living entities: a despawn of
/// the id a spawn just handed out (which no living entity had) restores the
/// living set; a despawned entity is not alive.
pub proof fn lemma_spawn_then_despawn(alive: Set<EntityId>, id: EntityId)
    requires
        !alive.contains(id),
    ensures
        alive.insert(id).contains(id),
        alive.insert(id).remove(id) == alive,
        !alive.remove(id).contains(id),
{
    assert(alive.insert(id).remove(id) =~= alive);
}

} // verus!
