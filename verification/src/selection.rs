//! Entity selection: an insertion-ordered set of selected entities plus the
//! primary one the inspector edits and the gizmo pivots on.
//!
//! The selection iterates in the order entities were selected, and when the
//! primary is removed the earliest remaining entity takes its place — never
//! an order that depends on hashing.

use indexmap::IndexSet;
use vstd::prelude::*;

use crate::entity::EntityId;
use crate::text::{decimal, push_decimal, push_str, string_of};
use crate::index_set::{
    index_set_items, key_set_clear, key_set_clone, key_set_contains, key_set_first, key_set_get_index,
    key_set_insert, key_set_len, key_set_new, key_set_shift_remove,
};

verus! {

/// The first occurrences of `s`'s elements, in the order they first appear.
pub open spec fn first_occurrences<A>(s: Seq<A>) -> Seq<A>
    decreases s.len(),
{
    if s.len() == 0 {
        Seq::empty()
    } else {
        let prefix = first_occurrences(s.drop_last());
        if prefix.contains(s.last()) {
            prefix
        } else {
            prefix.push(s.last())
        }
    }
}

/// `first_occurrences` keeps exactly the elements of its input, each once.
pub proof fn lemma_first_occurrences<A>(s: Seq<A>)
    ensures
        forall|x: A| first_occurrences(s).contains(x) <==> s.contains(x),
        first_occurrences(s).no_duplicates(),
        s.len() > 0 ==> first_occurrences(s).len() > 0 && first_occurrences(s)[0] == s[0],
    decreases s.len(),
{
    if s.len() > 0 {
        let d = s.drop_last();
        let prefix = first_occurrences(d);
        lemma_first_occurrences(d);
        assert forall|x: A| first_occurrences(s).contains(x) <==> s.contains(x) by {
            if s.contains(x) {
                let i = choose|i: int| 0 <= i < s.len() && s[i] == x;
                if i < s.len() - 1 {
                    assert(d[i] == x);
                    assert(d.contains(x));
                    assert(prefix.contains(x));
                    if !prefix.contains(s.last()) {
                        let k = choose|k: int| 0 <= k < prefix.len() && prefix[k] == x;
                        assert(prefix.push(s.last())[k] == x);
                    }
                } else {
                    if !prefix.contains(s.last()) {
                        assert(prefix.push(s.last())[prefix.len() as int] == x);
                    }
                }
            }
            if first_occurrences(s).contains(x) {
                if prefix.contains(x) {
                    assert(d.contains(x));
                    let i = choose|i: int| 0 <= i < d.len() && d[i] == x;
                    assert(s[i] == x);
                } else {
                    let k = choose|k: int|
                        0 <= k < first_occurrences(s).len() && first_occurrences(s)[k] == x;
                    assert(k == prefix.len());
                    assert(x == s.last());
                    assert(s[s.len() - 1] == x);
                }
            }
        }
        if !prefix.contains(s.last()) {
            let r = prefix.push(s.last());
            assert forall|a: int, b: int| 0 <= a < r.len() && 0 <= b < r.len() && a != b implies r[a]
                != r[b] by {
                if a == prefix.len() {
                    assert(prefix[b] == r[b]);
                } else if b == prefix.len() {
                    assert(prefix[a] == r[a]);
                }
            }
        }
        if s.len() == 1 {
            assert(d.len() == 0);
            assert(prefix.len() == 0);
        } else {
            assert(d[0] == s[0]);
        }
    }
}

/// The abstract selection: the selected entities' ids in selection order,
/// and the primary entity.
pub struct SelectionModel {
    pub items: Seq<(u64, u32)>,
    pub primary: Option<EntityId>,
}

/// Well-formed: each entity once; a primary exists exactly when something
/// is selected, and it is one of the selected entities.
pub open spec fn model_wf(m: SelectionModel) -> bool {
    &&& m.items.no_duplicates()
    &&& (m.primary is Some <==> m.items.len() > 0)
    &&& (m.primary matches Some(p) ==> m.items.contains(p@))
}

/// Adding: a new entity goes to the end, one already selected keeps its
/// place; the first entity added to an empty selection becomes primary.
pub open spec fn model_add(m: SelectionModel, e: EntityId) -> SelectionModel {
    SelectionModel {
        items: if m.items.contains(e@) { m.items } else { m.items.push(e@) },
        primary: if m.primary is None { Some(e) } else { m.primary },
    }
}

/// Removing: the entity leaves, the rest keep their order; a removed
/// primary hands over to the earliest remaining entity.
pub open spec fn model_remove(m: SelectionModel, e: EntityId) -> SelectionModel {
    let items = m.items.remove_value(e@);
    SelectionModel {
        items,
        primary: if m.primary == Some(e) {
            if items.len() > 0 {
                Some(EntityId::spec_from_key(items[0]))
            } else {
                None
            }
        } else {
            m.primary
        },
    }
}

/// Toggling: remove a selected entity, add an unselected one.
pub open spec fn model_toggle(m: SelectionModel, e: EntityId) -> SelectionModel {
    if m.items.contains(e@) {
        model_remove(m, e)
    } else {
        model_add(m, e)
    }
}

/// Toggling an entity that is not selected, and then toggling it again,
/// leaves the selection exactly as it was — order and primary included.
pub proof fn lemma_toggle_twice_restores(m: SelectionModel, e: EntityId)
    requires
        model_wf(m),
        !m.items.contains(e@),
    ensures
        model_toggle(model_toggle(m, e), e) == m,
{
    let once = model_toggle(m, e);
    assert(once.items == m.items.push(e@));
    assert(once.items[m.items.len() as int] == e@);
    assert(once.items.contains(e@));
    let twice = model_toggle(once, e);
    let pushed = m.items.push(e@);
    pushed.index_of_first_ensures(e@);
    let i = pushed.index_of_first(e@)->0;
    assert(pushed[i] == e@);
    if i < m.items.len() {
        assert(m.items[i] == e@);
    }
    assert(i == m.items.len());
    assert(pushed.remove(i) =~= m.items);
    assert(twice.items == m.items);
    if m.primary is None {
        assert(m.items.len() == 0);
    } else {
        let p = m.primary->0;
        if p == e {
            assert(m.items.contains(e@));
        }
    }
}

/// Adding an entity that is already selected changes nothing: a re-add
/// neither duplicates it nor moves it, nor changes the primary.
pub proof fn lemma_add_is_idempotent(m: SelectionModel, e: EntityId)
    requires
        model_wf(m),
    ensures
        model_add(model_add(m, e), e) == model_add(m, e),
{
    if !m.items.contains(e@) {
        assert(m.items.push(e@)[m.items.len() as int] == e@);
    }
}

/// The inspector heading for `primary` in a selection of `count` entities.
pub open spec fn heading_text(primary: EntityId, count: nat) -> Seq<char> {
    if count > 1 {
        "Entity: "@ + decimal(primary.index as nat) + "  (1 of "@ + decimal(count) + " selected)"@
    } else {
        "Entity: "@ + decimal(primary.index as nat)
    }
}

/// The editor's entity selection.
#[derive(Debug)]
pub struct Selection {
    /// Selected entities (by id view), in the order they were selected.
    selected: IndexSet<(u64, u32)>,
    /// The primary selection — the entity property editing focuses on.
    primary: Option<EntityId>,
}

impl Selection {
    /// The selected entities' ids, in selection order.
    pub closed spec fn items(&self) -> Seq<(u64, u32)> {
        index_set_items(self.selected)
    }

    /// The primary entity.
    pub closed spec fn primary_spec(&self) -> Option<EntityId> {
        self.primary
    }

    /// The abstract selection.
    pub open spec fn model(&self) -> SelectionModel {
        SelectionModel { items: self.items(), primary: self.primary_spec() }
    }

    /// Well-formed (see [`model_wf`]).
    pub open spec fn wf(&self) -> bool {
        model_wf(self.model())
    }

    /// Create a new empty selection.
    pub fn new() -> (s: Self)
        ensures
            s.wf(),
            s.items() == Seq::<(u64, u32)>::empty(),
            s.primary_spec() == None::<EntityId>,
    {
        Selection { selected: key_set_new(), primary: None }
    }

    /// Whether nothing is selected.
    pub fn is_empty(&self) -> (empty: bool)
        ensures
            empty == (self.items().len() == 0),
    {
        key_set_len(&self.selected) == 0
    }

    /// The number of selected entities.
    pub fn len(&self) -> (n: usize)
        ensures
            n == self.items().len(),
    {
        key_set_len(&self.selected)
    }

    /// Whether `entity` is selected.
    pub fn contains(&self, entity: EntityId) -> (present: bool)
        ensures
            present == self.items().contains(entity@),
    {
        key_set_contains(&self.selected, (entity.index, entity.generation))
    }

    /// The primary selected entity.
    pub fn primary(&self) -> (p: Option<EntityId>)
        ensures
            p == self.primary_spec(),
    {
        self.primary
    }

    /// All selected entities, in the order they were selected.
    pub fn selected(&self) -> (all: Vec<EntityId>)
        ensures
            all@.len() == self.items().len(),
            forall|i: int| 0 <= i < all@.len() ==> #[trigger] all@[i]@ == self.items()[i],
    {
        let n = key_set_len(&self.selected);
        let mut all: Vec<EntityId> = Vec::new();
        let mut i: usize = 0;
        while i < n
            invariant
                n == self.items().len(),
                i <= n,
                all@.len() == i,
                forall|j: int| 0 <= j < i ==> #[trigger] all@[j]@ == self.items()[j],
            decreases n - i,
        {
            let key = key_set_get_index(&self.selected, i);
            match key {
                Some(k) => all.push(EntityId::from_key(k)),
                None => {},
            }
            i = i + 1;
        }
        all
    }

    /// Select a single entity, clearing any previous selection.
    pub fn select(&mut self, entity: EntityId)
        ensures
            final(self).wf(),
            final(self).items() == seq![entity@],
            final(self).primary_spec() == Some(entity),
    {
        key_set_clear(&mut self.selected);
        key_set_insert(&mut self.selected, (entity.index, entity.generation));
        self.primary = Some(entity);
        assert(self.items() =~= seq![entity@]);
        assert(self.items().contains(entity@)) by {
            assert(self.items()[0] == entity@);
        }
    }

    /// Add an entity to the selection. A new entity goes to the end; one
    /// already selected keeps its place. The first entity added to an
    /// empty selection becomes the primary.
    pub fn add(&mut self, entity: EntityId)
        requires
            old(self).wf(),
        ensures
            final(self).wf(),
            final(self).model() == model_add(old(self).model(), entity),
    {
        let ghost before = self.items();
        key_set_insert(&mut self.selected, (entity.index, entity.generation));
        if self.primary.is_none() {
            self.primary = Some(entity);
        }
        proof {
            if !before.contains(entity@) {
                assert(self.items() == before.push(entity@));
                assert(self.items()[before.len() as int] == entity@);
                assert forall|i: int, j: int|
                    0 <= i < self.items().len() && 0 <= j < self.items().len() && i != j
                    implies self.items()[i] != self.items()[j] by {
                    if i < before.len() && j < before.len() {
                    } else if i == before.len() {
                        assert(before[j] == self.items()[j]);
                    } else {
                        assert(before[i] == self.items()[i]);
                    }
                }
                if let Some(p) = old(self).primary_spec() {
                    let k = choose|k: int| 0 <= k < before.len() && before[k] == p@;
                    assert(self.items()[k] == p@);
                }
            }
        }
    }

    /// Remove an entity from the selection; the others keep their order.
    /// When it was the primary, the earliest remaining entity becomes the
    /// primary (none if the selection emptied).
    pub fn remove(&mut self, entity: EntityId)
        requires
            old(self).wf(),
        ensures
            final(self).wf(),
            final(self).model() == model_remove(old(self).model(), entity),
    {
        let ghost before = self.items();
        key_set_shift_remove(&mut self.selected, (entity.index, entity.generation));
        proof {
            lemma_remove_value(before, entity@);
        }
        if self.primary == Some(entity) {
            self.primary = match key_set_first(&self.selected) {
                Some(k) => Some(EntityId::from_key(k)),
                None => None,
            };
            proof {
                if self.items().len() > 0 {
                    assert(self.items().contains(self.items()[0]));
                }
            }
        } else {
            proof {
                if let Some(p) = old(self).primary_spec() {
                    assert(p@ != entity@);
                }
            }
        }
    }

    /// Toggle an entity: remove it when selected, add it otherwise.
    pub fn toggle(&mut self, entity: EntityId)
        requires
            old(self).wf(),
        ensures
            final(self).wf(),
            final(self).model() == model_toggle(old(self).model(), entity),
    {
        if self.contains(entity) {
            self.remove(entity);
        } else {
            self.add(entity);
        }
    }

    /// Clear the selection.
    pub fn clear(&mut self)
        ensures
            final(self).wf(),
            final(self).items() == Seq::<(u64, u32)>::empty(),
            final(self).primary_spec() == None::<EntityId>,
    {
        key_set_clear(&mut self.selected);
        self.primary = None;
    }

    /// Select several entities, replacing the selection: their order is
    /// kept, a repeated entity keeps its first position, and the first
    /// given entity becomes the primary. An empty list clears everything.
    pub fn select_multiple(&mut self, entities: Vec<EntityId>)
        ensures
            final(self).wf(),
            final(self).items() == first_occurrences(entities@.map_values(|e: EntityId| e@)),
            final(self).primary_spec() == (if entities@.len() > 0 {
                Some(entities@[0])
            } else {
                None::<EntityId>
            }),
    {
        let ghost keys = entities@.map_values(|e: EntityId| e@);
        key_set_clear(&mut self.selected);
        let mut i: usize = 0;
        while i < entities.len()
            invariant
                keys == entities@.map_values(|e: EntityId| e@),
                i <= entities@.len(),
                self.items() == first_occurrences(keys.take(i as int)),
            decreases entities@.len() - i,
        {
            let e = entities[i];
            proof {
                assert(keys.take(i + 1).drop_last() =~= keys.take(i as int));
                assert(keys.take(i + 1).last() == e@);
            }
            key_set_insert(&mut self.selected, (e.index, e.generation));
            i = i + 1;
        }
        proof {
            assert(keys.take(entities@.len() as int) =~= keys);
            lemma_first_occurrences(keys);
        }
        self.primary = match key_set_first(&self.selected) {
            Some(k) => Some(EntityId::from_key(k)),
            None => None,
        };
        proof {
            if entities@.len() > 0 {
                assert(keys[0] == entities@[0]@);
                assert(self.items().contains(self.items()[0]));
            }
        }
    }

    /// The inspector's heading for the primary entity, saying how many
    /// others are selected with it: `Entity: 7` alone, `Entity: 7  (1 of 5
    /// selected)` in a multi-selection; nothing when nothing is selected.
    pub fn inspector_heading(&self) -> (heading: Option<String>)
        ensures
            match self.primary_spec() {
                None => heading is None,
                Some(p) => heading matches Some(h) && h@ == heading_text(p, self.items().len()),
            },
    {
        match self.primary {
            None => None,
            Some(p) => {
                let mut h = string_of("Entity: ");
                push_decimal(&mut h, p.value());
                let n = self.len();
                if n > 1 {
                    push_str(&mut h, "  (1 of ");
                    push_decimal(&mut h, n as u64);
                    push_str(&mut h, " selected)");
                }
                Some(h)
            },
        }
    }

    /// Make `entity` the primary, if it is selected; otherwise nothing
    /// changes.
    pub fn set_primary(&mut self, entity: EntityId)
        requires
            old(self).wf(),
        ensures
            final(self).wf(),
            final(self).items() == old(self).items(),
            final(self).primary_spec() == (if old(self).items().contains(entity@) {
                Some(entity)
            } else {
                old(self).primary_spec()
            }),
    {
        if self.contains(entity) {
            self.primary = Some(entity);
        }
    }
}

impl Clone for Selection {
    fn clone(&self) -> (copy: Self)
        ensures
            copy.items() == self.items(),
            copy.primary_spec() == self.primary_spec(),
    {
        Selection { selected: key_set_clone(&self.selected), primary: self.primary }
    }
}

impl Default for Selection {
    fn default() -> (s: Self)
        ensures
            s.wf(),
            s.items() == Seq::<(u64, u32)>::empty(),
            s.primary_spec() == None::<EntityId>,
    {
        Selection::new()
    }
}

impl EntityId {
    /// The id whose view is `key`.
    pub open spec fn spec_from_key(key: (u64, u32)) -> EntityId {
        EntityId { index: key.0, generation: key.1 }
    }
}

/// What taking one value out of a duplicate-free sequence does: the
/// value is gone, every other value stays, the rest keep their order and
/// stay duplicate-free; a value that was absent changes nothing.
pub proof fn lemma_remove_value<A>(s: Seq<A>, v: A)
    requires
        s.no_duplicates(),
    ensures
        s.remove_value(v).no_duplicates(),
        !s.contains(v) ==> s.remove_value(v) == s,
        s.contains(v) ==> s.remove_value(v).len() == s.len() - 1,
        !s.remove_value(v).contains(v),
        forall|w: A| w != v ==> (s.remove_value(v).contains(w) <==> s.contains(w)),
{
    s.index_of_first_ensures(v);
    if let Some(i) = s.index_of_first(v) {
        s.remove_ensures(i);
        let r = s.remove(i);
        assert forall|a: int, b: int| 0 <= a < r.len() && 0 <= b < r.len() && a != b implies r[a]
            != r[b] by {
            let sa = if a < i { a } else { a + 1 };
            let sb = if b < i { b } else { b + 1 };
            assert(r[a] == s[sa]);
            assert(r[b] == s[sb]);
        }
        if r.contains(v) {
            let a = choose|a: int| 0 <= a < r.len() && r[a] == v;
            let sa = if a < i { a } else { a + 1 };
            assert(s[sa] == v);
        }
        assert forall|w: A| w != v implies (r.contains(w) <==> s.contains(w)) by {
            if s.contains(w) {
                let k = choose|k: int| 0 <= k < s.len() && s[k] == w;
                if k < i {
                    assert(r[k] == w);
                } else {
                    assert(k != i);
                    assert(r[k - 1] == w);
                }
            }
            if r.contains(w) {
                let a = choose|a: int| 0 <= a < r.len() && r[a] == w;
                let sa = if a < i { a } else { a + 1 };
                assert(s[sa] == w);
            }
        }
    }
}

} // verus!
