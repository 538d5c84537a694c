//! A set of names kept in ascending order, the order `String`'s `Ord`
//! gives (code point by code point, which is also the byte order of their
//! UTF-8): the collapsed inspector sections, the open Advanced
//! disclosures, the component types a snapshot could not capture.

use vstd::prelude::*;

use crate::text::{str_eq, string_of};

verus! {

/// `a` sorts strictly before `b`: the first differing character decides,
/// and a proper prefix sorts first.
pub open spec fn name_less(a: Seq<char>, b: Seq<char>) -> bool
    decreases a.len(),
{
    if a.len() == 0 {
        b.len() > 0
    } else if b.len() == 0 {
        false
    } else if a[0] != b[0] {
        (a[0] as int) < (b[0] as int)
    } else {
        name_less(a.drop_first(), b.drop_first())
    }
}

/// No name sorts before itself.
pub proof fn lemma_name_less_irreflexive(a: Seq<char>)
    ensures
        !name_less(a, a),
    decreases a.len(),
{
    if a.len() > 0 {
        lemma_name_less_irreflexive(a.drop_first());
    }
}

/// Two different names are ordered one way or the other, never both.
pub proof fn lemma_name_less_total(a: Seq<char>, b: Seq<char>)
    ensures
        a != b ==> (name_less(a, b) || name_less(b, a)),
        !(name_less(a, b) && name_less(b, a)),
    decreases a.len(),
{
    if a.len() > 0 && b.len() > 0 {
        lemma_name_less_total(a.drop_first(), b.drop_first());
        if a[0] == b[0] && a != b {
            assert(a.drop_first() != b.drop_first()) by {
                if a.drop_first() == b.drop_first() {
                    assert(a =~= seq![a[0]] + a.drop_first());
                    assert(b =~= seq![b[0]] + b.drop_first());
                }
            }
        }
        if a[0] != b[0] {
            assert((a[0] as int) != (b[0] as int));
        }
    } else if a.len() == 0 && b.len() == 0 {
        assert(a =~= b);
    }
}

/// The order is transitive.
pub proof fn lemma_name_less_transitive(a: Seq<char>, b: Seq<char>, c: Seq<char>)
    requires
        name_less(a, b),
        name_less(b, c),
    ensures
        name_less(a, c),
    decreases a.len(),
{
    if a.len() > 0 && b.len() > 0 && c.len() > 0 {
        if a[0] == b[0] && b[0] == c[0] {
            lemma_name_less_transitive(a.drop_first(), b.drop_first(), c.drop_first());
        }
    }
}

/// Whether `a` sorts strictly before `b`.
pub fn str_less(a: &str, b: &str) -> (less: bool)
    ensures
        less == name_less(a@, b@),
{
    let na = a.unicode_len();
    let nb = b.unicode_len();
    let mut i: usize = 0;
    assert(a@.skip(0) =~= a@);
    assert(b@.skip(0) =~= b@);
    while i < na && i < nb
        invariant
            na == a@.len(),
            nb == b@.len(),
            i <= na,
            i <= nb,
            name_less(a@, b@) == name_less(a@.skip(i as int), b@.skip(i as int)),
        decreases na - i,
    {
        let ca = a.get_char(i);
        let cb = b.get_char(i);
        if ca != cb {
            assert(a@.skip(i as int)[0] == ca);
            assert(b@.skip(i as int)[0] == cb);
            return (ca as u32) < (cb as u32);
        }
        assert(a@.skip(i as int).drop_first() =~= a@.skip(i + 1));
        assert(b@.skip(i as int).drop_first() =~= b@.skip(i + 1));
        i = i + 1;
    }
    i < nb && i >= na
}

/// The characters of each name.
pub open spec fn name_views(names: Seq<String>) -> Seq<Seq<char>> {
    names.map_values(|s: String| s@)
}

/// Each name sorts strictly before every later one (so none repeats).
pub open spec fn strictly_sorted(names: Seq<Seq<char>>) -> bool {
    forall|i: int, j: int| 0 <= i < j < names.len() ==> name_less(names[i], names[j])
}

/// A set of names held in ascending order.
#[derive(Debug)]
pub struct SortedNames {
    names: Vec<String>,
}

impl View for SortedNames {
    type V = Seq<Seq<char>>;

    closed spec fn view(&self) -> Seq<Seq<char>> {
        name_views(self.names@)
    }
}

impl SortedNames {
    /// Well-formed: ascending without repeats.
    pub open spec fn wf(&self) -> bool {
        strictly_sorted(self@)
    }

    /// The names as a set.
    pub open spec fn contents(&self) -> Set<Seq<char>> {
        self@.to_set()
    }

    /// No names.
    pub fn new() -> (s: Self)
        ensures
            s.wf(),
            s@ == Seq::<Seq<char>>::empty(),
    {
        let s = SortedNames { names: Vec::new() };
        assert(s@ =~= Seq::<Seq<char>>::empty());
        s
    }

    /// Number of names.
    pub fn len(&self) -> (n: usize)
        ensures
            n == self@.len(),
    {
        self.names.len()
    }

    /// Where `name` is, or where it would go: the first position whose
    /// name does not sort before it.
    fn position(&self, name: &str) -> (p: usize)
        requires
            self.wf(),
        ensures
            p <= self@.len(),
            forall|i: int| 0 <= i < p ==> name_less(#[trigger] self@[i], name@),
            forall|i: int| p <= i < self@.len() ==> !name_less(#[trigger] self@[i], name@),
    {
        let mut p: usize = 0;
        while p < self.names.len()
            invariant
                self.wf(),
                p <= self@.len(),
                self@.len() == self.names@.len(),
                forall|i: int| 0 <= i < p ==> name_less(#[trigger] self@[i], name@),
            decreases self.names@.len() - p,
        {
            if !str_less(self.names[p].as_str(), name) {
                proof {
                    assert forall|i: int| p <= i < self@.len() implies !name_less(
                        #[trigger] self@[i],
                        name@,
                    ) by {
                        if i > p && name_less(self@[i], name@) {
                            lemma_name_less_transitive(self@[p as int], self@[i], name@);
                        }
                    }
                }
                return p;
            }
            p = p + 1;
        }
        p
    }

    /// Whether `name` is in the set.
    pub fn contains(&self, name: &str) -> (found: bool)
        requires
            self.wf(),
        ensures
            found == self@.contains(name@),
    {
        let p = self.position(name);
        if p < self.names.len() && str_eq(self.names[p].as_str(), name) {
            assert(self@[p as int] == name@);
            true
        } else {
            proof {
                if self@.contains(name@) {
                    let k = choose|k: int| 0 <= k < self@.len() && self@[k] == name@;
                    lemma_name_less_irreflexive(name@);
                    if k > p {
                        lemma_name_less_total(self@[p as int], name@);
                        lemma_name_less_transitive(name@, self@[p as int], self@[k]);
                        assert(name_less(self@[p as int], self@[k]));
                    }
                }
            }
            false
        }
    }

    /// Add `name`; `true` when it was not there before.
    pub fn insert(&mut self, name: &str) -> (added: bool)
        requires
            old(self).wf(),
        ensures
            final(self).wf(),
            added == !old(self)@.contains(name@),
            final(self).contents() == old(self).contents().insert(name@),
    {
        let p = self.position(name);
        if p < self.names.len() && str_eq(self.names[p].as_str(), name) {
            assert(self@[p as int] == name@);
            assert(self.contents() =~= self.contents().insert(name@));
            return false;
        }
        proof {
            assert forall|i: int| p <= i < self@.len() implies name_less(name@, #[trigger] self@[i]) by {
                lemma_name_less_total(self@[i], name@);
                if i > p {
                    lemma_name_less_total(self@[p as int], name@);
                    lemma_name_less_transitive(name@, self@[p as int], self@[i]);
                }
            }
            lemma_name_less_irreflexive(name@);
        }
        let ghost before = self@;
        self.names.insert(p, string_of(name));
        proof {
            assert(self@ =~= before.insert(p as int, name@));
            assert(self.contents() =~= before.to_set().insert(name@)) by {
                assert forall|x: Seq<char>| self.contents().contains(x) <==> before.to_set().insert(
                    name@,
                ).contains(x) by {
                    if self@.contains(x) {
                        let k = choose|k: int| 0 <= k < self@.len() && self@[k] == x;
                        if k < p {
                            assert(before[k] == x);
                        } else if k > p {
                            assert(before[k - 1] == x);
                        }
                    }
                    if before.contains(x) {
                        let k = choose|k: int| 0 <= k < before.len() && before[k] == x;
                        if k < p {
                            assert(self@[k] == x);
                        } else {
                            assert(self@[k + 1] == x);
                        }
                    }
                    if x == name@ {
                        assert(self@[p as int] == x);
                    }
                }
            }
            assert forall|i: int, j: int| 0 <= i < j < self@.len() implies name_less(
                self@[i],
                self@[j],
            ) by {
                if j < p {
                    assert(self@[i] == before[i] && self@[j] == before[j]);
                } else if j == p {
                    assert(self@[i] == before[i]);
                } else if i < p {
                    assert(self@[i] == before[i] && self@[j] == before[j - 1]);
                    lemma_name_less_transitive(before[i], name@, before[j - 1]);
                } else if i == p {
                    assert(self@[j] == before[j - 1]);
                } else {
                    assert(self@[i] == before[i - 1] && self@[j] == before[j - 1]);
                }
            }
            assert(!before.contains(name@)) by {
                if before.contains(name@) {
                    let k = choose|k: int| 0 <= k < before.len() && before[k] == name@;
                    if k < p {
                        assert(name_less(before[k], name@));
                    } else {
                        assert(name_less(name@, before[k]));
                    }
                }
            }
        }
        true
    }

    /// Remove `name`; `true` when it was there.
    pub fn remove(&mut self, name: &str) -> (removed: bool)
        requires
            old(self).wf(),
        ensures
            final(self).wf(),
            removed == old(self)@.contains(name@),
            final(self).contents() == old(self).contents().remove(name@),
    {
        let found = self.contains(name);
        if !found {
            assert(self.contents() =~= self.contents().remove(name@));
            return false;
        }
        let p = self.position(name);
        proof {
            let k = choose|k: int| 0 <= k < self@.len() && self@[k] == name@;
            lemma_name_less_irreflexive(name@);
            if k < p {
                assert(name_less(self@[k], name@));
            }
            if k > p {
                lemma_name_less_total(self@[p as int], name@);
                lemma_name_less_transitive(name@, self@[p as int], self@[k]);
                assert(name_less(self@[p as int], self@[k]));
            }
            assert(k == p);
        }
        let ghost before = self@;
        self.names.remove(p);
        proof {
            assert(self@ =~= before.remove(p as int));
            assert forall|i: int, j: int| 0 <= i < j < self@.len() implies name_less(
                self@[i],
                self@[j],
            ) by {
                if j < p {
                    assert(self@[i] == before[i] && self@[j] == before[j]);
                } else if i < p {
                    assert(self@[i] == before[i] && self@[j] == before[j + 1]);
                } else {
                    assert(self@[i] == before[i + 1] && self@[j] == before[j + 1]);
                }
            }
            assert(self.contents() =~= before.to_set().remove(name@)) by {
                assert forall|x: Seq<char>| self.contents().contains(x) <==> before.to_set().remove(
                    name@,
                ).contains(x) by {
                    if self@.contains(x) {
                        let k = choose|k: int| 0 <= k < self@.len() && self@[k] == x;
                        if k < p {
                            assert(before[k] == x);
                            assert(name_less(x, name@));
                            lemma_name_less_irreflexive(name@);
                        } else {
                            assert(before[k + 1] == x);
                            assert(name_less(name@, x));
                            lemma_name_less_irreflexive(name@);
                        }
                    }
                    if before.contains(x) && x != name@ {
                        let k = choose|k: int| 0 <= k < before.len() && before[k] == x;
                        if k < p {
                            assert(self@[k] == x);
                        } else {
                            assert(k != p);
                            assert(self@[k - 1] == x);
                        }
                    }
                }
            }
        }
        true
    }

    /// Remove `name` when present, add it when absent.
    pub fn toggle(&mut self, name: &str)
        requires
            old(self).wf(),
        ensures
            final(self).wf(),
            final(self).contents() == (if old(self)@.contains(name@) {
                old(self).contents().remove(name@)
            } else {
                old(self).contents().insert(name@)
            }),
    {
        if !self.remove(name) {
            self.insert(name);
        }
    }

    /// The names, ascending.
    pub fn to_vec(&self) -> (names: Vec<String>)
        ensures
            name_views(names@) == self@,
    {
        let mut out: Vec<String> = Vec::new();
        let mut i: usize = 0;
        while i < self.names.len()
            invariant
                i <= self.names@.len(),
                name_views(out@) =~= name_views(self.names@.take(i as int)),
            decreases self.names@.len() - i,
        {
            let ghost prev = out@;
            let item = self.names[i].clone();
            out.push(item);
            proof {
                assert(name_views(out@) =~= name_views(prev).push(self.names@[i as int]@));
                assert(self.names@.take(i + 1) =~= self.names@.take(i as int).push(self.names@[i as int]));
            }
            i = i + 1;
        }
        assert(self.names@.take(i as int) =~= self.names@);
        out
    }

    /// The set of `names`, in ascending order.
    pub fn from_names(names: &[String]) -> (s: Self)
        ensures
            s.wf(),
            s.contents() == name_views(names@).to_set(),
    {
        let mut s = SortedNames::new();
        let mut i: usize = 0;
        while i < names.len()
            invariant
                i <= names@.len(),
                s.wf(),
                s.contents() == name_views(names@.take(i as int)).to_set(),
            decreases names@.len() - i,
        {
            s.insert(names[i].as_str());
            proof {
                assert(name_views(names@.take(i + 1)) =~= name_views(names@.take(i as int)).push(
                    names@[i as int]@,
                ));
                name_views(names@.take(i as int)).lemma_push_to_set_commute(names@[i as int]@);
            }
            i = i + 1;
        }
        assert(names@.take(i as int) =~= names@);
        s
    }
}

} // verus!
