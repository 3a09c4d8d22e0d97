//! Component storage keyed by entity, and the mob components.
use std::collections::HashMap;
use std::collections::hash_map::Entry;
use vstd::prelude::*;
use crate::entity::EntityId;

verus! {

broadcast use {vstd::set::group_set_axioms, vstd::std_specs::hash::group_hash_axioms};

/// Generic component storage mapping entity IDs to component data.
pub struct ComponentStore<T> {
    data: HashMap<u64, T>,
}

impl<T> ComponentStore<T> {
    /// The store's internal invariant: none beyond that of its map.
    pub closed spec fn wf(&self) -> bool {
        true
    }

    /// The components by entity.
    pub closed spec fn view(&self) -> Map<EntityId, T> {
        Map::new(|e: EntityId| self.data@.contains_key(e.0), |e: EntityId| self.data@[e.0])
    }

    /// The entities with a component are those whose numbers are stored,
    /// and there are as many of them.
    proof fn lemma_view_dom(&self)
        ensures
            self.view().dom() == self.data@.dom().map(|k: u64| EntityId(k)),
            self.view().dom().finite(),
            self.view().dom().len() == self.data@.dom().len(),
    {
        let f = |k: u64| EntityId(k);
        assert forall|e: EntityId| #[trigger] self.view().dom().contains(e) <==> self.data@.dom().map(f).contains(e) by {
            if self.data@.contains_key(e.0) {
                assert(f(e.0) == e);
            }
        }
        assert(self.view().dom() =~= self.data@.dom().map(f));
        assert(vstd::relations::injective_on(f, self.data@.dom()));
        vstd::set_lib::lemma_map_size(self.data@.dom(), self.view().dom(), f);
    }

    /// A store holds finitely many components.
    pub proof fn lemma_view_finite(&self)
        ensures
            self.view().dom().finite(),
    {
        self.lemma_view_dom();
    }

    pub fn new() -> (s: Self)
        ensures
            s.wf(),
            s.view() == Map::<EntityId, T>::empty(),
            s.view().dom().finite(),
    {
        let s = Self { data: HashMap::new() };
        assert(s.view() =~= Map::<EntityId, T>::empty());
        s
    }

    /// Set the component of an entity, replacing any previous one.
    pub fn insert(&mut self, id: EntityId, component: T)
        requires
            old(self).wf(),
        ensures
            final(self).wf(),
            final(self).view() == old(self).view().insert(id, component),
            final(self).view().dom().finite(),
            final(self).view().dom().len() == old(self).view().dom().len() + (if old(self).view().contains_key(id) {
                0int
            } else {
                1int
            }),
    {
        proof {
            old(self).lemma_view_dom();
        }
        self.data.insert(id.0, component);
        proof {
            self.lemma_view_dom();
            assert(self.view() =~= old(self).view().insert(id, component));
            assert(self.data@.dom() =~= old(self).data@.dom().insert(id.0));
        }
    }

    /// The component of an entity, if it has one.
    pub fn get(&self, id: EntityId) -> (r: Option<&T>)
        requires
            self.wf(),
        ensures
            match r {
                Some(c) => self.view().contains_key(id) && *c == self.view()[id],
                None => !self.view().contains_key(id),
            },
    {
        self.data.get(&id.0)
    }

    /// Mutable access to the component of an entity, if it has one; a write
    /// through the returned reference becomes the entity's component.
    pub fn get_mut(&mut self, id: EntityId) -> (r: Option<&mut T>)
        requires
            old(self).wf(),
        ensures
            match r {
                Some(c) => {
                    &&& old(self).view().contains_key(id)
                    &&& *c == old(self).view()[id]
                    &&& final(self).wf()
                    &&& final(self).view() == old(self).view().insert(id, *final(c))
                },
                None => !old(self).view().contains_key(id) && final(self).view() == old(self).view() && final(self).wf(),
            },
    {
        match self.data.entry(id.0) {
            Entry::Occupied(o) => {
                Some(o.into_mut())
            },
            Entry::Vacant(_) => None,
        }
    }

    /// Remove and return the component of an entity, if it has one.
    pub fn remove(&mut self, id: EntityId) -> (r: Option<T>)
        requires
            old(self).wf(),
        ensures
            final(self).wf(),
            final(self).view() == old(self).view().remove(id),
            final(self).view().dom().finite(),
            final(self).view().dom().len() == old(self).view().dom().len() - (if old(self).view().contains_key(id) {
                1int
            } else {
                0int
            }),
            match r {
                Some(c) => old(self).view().contains_key(id) && c == old(self).view()[id],
                None => !old(self).view().contains_key(id),
            },
    {
        proof {
            old(self).lemma_view_dom();
        }
        let r = self.data.remove(&id.0);
        proof {
            self.lemma_view_dom();
            assert(self.view() =~= old(self).view().remove(id));
            assert(self.data@.dom() =~= old(self).data@.dom().remove(id.0));
        }
        r
    }

    /// Every entity with its component, once each.
    pub fn iter(&self) -> (items: Vec<(EntityId, &T)>)
        requires
            self.wf(),
        ensures
            items@.len() == self.view().dom().len(),
            forall|i: int| 0 <= i < items@.len() ==> self.view().contains_key(#[trigger] items@[i].0)
                && *items@[i].1 == self.view()[items@[i].0],
            forall|i: int, j: int| 0 <= i < items@.len() && 0 <= j < items@.len() && i != j
                ==> items@[i].0 != items@[j].0,
            forall|id: EntityId| #[trigger] self.view().contains_key(id)
                ==> exists|i: int| 0 <= i < items@.len() && items@[i].0 == id,
    {
        let mut items: Vec<(EntityId, &T)> = Vec::new();
        let entries_iter = self.data.iter();
        let ghost entries = vstd::std_specs::iter::IteratorSpec::remaining(&entries_iter);
        for kv in it: entries_iter
            invariant
                items@.len() == it.index(),
                it.seq() == entries,
                forall|i: int| 0 <= i < it.index() ==> (#[trigger] items@[i]).0 == EntityId(*entries[i].0)
                    && items@[i].1 == entries[i].1,
        {
            items.push((EntityId(*kv.0), kv.1));
        }
        proof {
            self.lemma_view_dom();
            assert(entries == vstd::std_specs::iter::IteratorSpec::remaining(
                &vstd::std_specs::hash::spec_hash_map_iter(&self.data),
            ));
            assert(items@.len() == entries.len());
            assert forall|i: int, j: int| 0 <= i < items@.len() && 0 <= j < items@.len() && i != j
                implies items@[i].0 != items@[j].0 by {
                assert(items@[i].0 == EntityId(*entries[i].0));
                assert(items@[j].0 == EntityId(*entries[j].0));
                if *entries[i].0 == *entries[j].0 {
                    assert(self.data@.contains_key(*entries[i].0));
                    assert(*entries[i].1 == self.data@[*entries[i].0]);
                    assert(*entries[j].1 == self.data@[*entries[j].0]);
                    assert(entries[i] == entries[j]);
                }
            }
            assert forall|id: EntityId| #[trigger] self.view().contains_key(id)
                implies exists|i: int| 0 <= i < items@.len() && items@[i].0 == id by {
                assert(self.data@.contains_key(id.0));
                assert(entries.contains((&id.0, &self.data@[id.0])));
                let i = choose|i: int| 0 <= i < entries.len() && entries[i] == (&id.0, &self.data@[id.0]);
                assert(items@[i].0 == id);
            }
        }
        items
    }
}

impl<T> Default for ComponentStore<T> {
    fn default() -> (s: Self)
        ensures
            s.wf(),
            s.view() == Map::<EntityId, T>::empty(),
    {
        Self::new()
    }
}

/// Mob species.
#[derive(Debug, Clone, Copy, PartialEq, Eq, Hash, Structural)]
pub enum MobKind {
    Zombie,
    Skeleton,
    Creeper,
    Spider,
    Pig,
    Cow,
    Sheep,
    Chicken,
}

/// Identifies the entity as a particular mob type.
#[derive(Debug, Clone, Copy)]
pub struct MobComponent {
    pub kind: MobKind,
}

/// What a component store promises across calls, over its view: after an
/// insert, a lookup of that entity finds the inserted component and other
/// entities are unaffected; after a remove, a lookup of that entity finds
/// nothing.
pub proof fn lemma_insert_get_remove<T>(m: Map<EntityId, T>, id: EntityId, other: EntityId, c: T)
    ensures
        m.insert(id, c).contains_key(id),
        m.insert(id, c)[id] == c,
        other != id ==> m.insert(id, c).contains_key(other) == m.contains_key(other),
        other != id && m.contains_key(other) ==> m.insert(id, c)[other] == m[other],
        !m.remove(id).contains_key(id),
        m.insert(id, c).remove(id) == m.remove(id),
{
    assert(m.insert(id, c).remove(id) =~= m.remove(id));
}

} // verus!
