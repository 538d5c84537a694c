//! What the play-mode snapshot tells the user about what it cannot carry:
//! the component types outside the editor registry, named briefly, in the
//! warning shown on Play and the report shown after Stop. (Capturing and
//! restoring the world itself is the host's, over its scene store.)

use vstd::prelude::*;

use crate::names::{name_views, strictly_sorted, SortedNames};
use crate::text::{decimal, joined, push_decimal, push_joined, push_str, str_eq, string_of};

verus! {

/// The position of the first `c` in `s`; `s.len()` when there is none.
pub open spec fn char_index(s: Seq<char>, c: char) -> int
    decreases s.len(),
{
    if s.len() == 0 {
        0
    } else if s[0] == c {
        0
    } else {
        1 + char_index(s.drop_first(), c)
    }
}

/// `char_index` is the first position holding `c`.
proof fn lemma_char_index(s: Seq<char>, c: char, i: int)
    requires
        0 <= i <= s.len(),
        forall|j: int| 0 <= j < i ==> s[j] != c,
        i == s.len() || s[i] == c,
    ensures
        char_index(s, c) == i,
    decreases i,
{
    if i > 0 {
        let d = s.drop_first();
        assert forall|j: int| 0 <= j < i - 1 implies d[j] != c by {
            assert(d[j] == s[j + 1]);
        }
        if i < s.len() {
            assert(d[i - 1] == s[i]);
        }
        lemma_char_index(d, c, i - 1);
    }
}

/// Whether a `::` starts at `i`.
pub open spec fn sep_at(s: Seq<char>, i: int) -> bool {
    0 <= i && i + 1 < s.len() && s[i] == ':' && s[i + 1] == ':'
}

/// The start of the last `::` in `s`; -1 when there is none.
pub open spec fn last_sep(s: Seq<char>) -> int
    decreases s.len(),
{
    if s.len() < 2 {
        -1
    } else if sep_at(s, s.len() - 2) {
        s.len() - 2
    } else {
        last_sep(s.drop_last())
    }
}

/// `last_sep` is the last position starting a `::`.
proof fn lemma_last_sep(s: Seq<char>, k: int)
    requires
        -1 <= k,
        k >= 0 ==> sep_at(s, k),
        forall|j: int| k < j ==> !#[trigger] sep_at(s, j),
    ensures
        last_sep(s) == k,
    decreases s.len(),
{
    if s.len() >= 2 && !sep_at(s, s.len() - 2) {
        let d = s.drop_last();
        assert forall|j: int| k < j implies !#[trigger] sep_at(d, j) by {
            if sep_at(d, j) {
                assert(sep_at(s, j));
            }
        }
        if k >= 0 {
            assert(k + 1 < s.len() - 1) by {
                if k == s.len() - 2 {
                    assert(sep_at(s, s.len() - 2));
                }
            }
            assert(sep_at(d, k));
        }
        lemma_last_sep(d, k);
    }
}

/// A full type path shortened for display: generic arguments dropped,
/// then the last path segment kept (`game::ai::Brain<State>` → `Brain`).
pub open spec fn short_name(full: Seq<char>) -> Seq<char> {
    let base = full.take(char_index(full, '<'));
    if last_sep(base) >= 0 {
        base.skip(last_sep(base) + 2)
    } else {
        base
    }
}

/// Shorten a full type path for display: strip generic arguments, keep the
/// last path segment (`game::ai::Brain<State>` → `Brain`).
pub fn short_type_name(full: &str) -> (short: &str)
    ensures
        short@ == short_name(full@),
{
    let n = full.unicode_len();
    let mut end: usize = 0;
    while end < n && full.get_char(end) != '<'
        invariant
            n == full@.len(),
            end <= n,
            forall|j: int| 0 <= j < end ==> full@[j] != '<',
        decreases n - end,
    {
        end = end + 1;
    }
    proof {
        lemma_char_index(full@, '<', end as int);
    }
    let ghost base = full@.take(end as int);
    let mut k: usize = end;
    while k >= 2 && !(full.get_char(k - 2) == ':' && full.get_char(k - 1) == ':')
        invariant
            n == full@.len(),
            end <= n,
            base == full@.take(end as int),
            k <= end,
            forall|j: int| k - 1 <= j ==> !#[trigger] sep_at(base, j),
        decreases k,
    {
        proof {
            assert(!sep_at(base, k - 2));
        }
        k = k - 1;
    }
    if k >= 2 {
        proof {
            assert(sep_at(base, k - 2));
            lemma_last_sep(base, k - 2);
            assert(base.skip(k as int) =~= full@.subrange(k as int, end as int));
        }
        full.substring_char(k, end)
    } else {
        proof {
            assert forall|j: int| -1 < j implies !#[trigger] sep_at(base, j) by {
                if sep_at(base, j) {
                    assert(j + 1 < base.len());
                }
            }
            lemma_last_sep(base, -1);
            assert(base =~= full@.subrange(0, end as int));
        }
        full.substring_char(0, end)
    }
}

/// The display name of path `i`: its short name, unless another path
/// shortens to the same name, in which case its full path.
pub open spec fn display_name_at(full_paths: Seq<Seq<char>>, i: int) -> Seq<char> {
    if exists|j: int| 0 <= j < full_paths.len() && j != i && short_name(full_paths[j]) == short_name(full_paths[i]) {
        full_paths[i]
    } else {
        short_name(full_paths[i])
    }
}

/// The characters of each path.
pub open spec fn path_views(paths: Seq<&str>) -> Seq<Seq<char>> {
    paths.map_values(|p: &str| p@)
}

/// Display names for the status bar: shortened, except that names which
/// collide after shortening fall back to their full paths so distinct
/// types stay distinguishable.
pub fn display_names(full_paths: &[&str]) -> (names: Vec<String>)
    ensures
        names@.len() == full_paths@.len(),
        forall|i: int|
            0 <= i < names@.len() ==> #[trigger] names@[i]@ == display_name_at(path_views(full_paths@), i),
{
    let ghost paths = path_views(full_paths@);
    let mut shorts: Vec<&str> = Vec::new();
    let mut i: usize = 0;
    while i < full_paths.len()
        invariant
            i <= full_paths@.len(),
            paths == path_views(full_paths@),
            shorts@.len() == i,
            forall|j: int| 0 <= j < i ==> #[trigger] shorts@[j]@ == short_name(paths[j]),
        decreases full_paths@.len() - i,
    {
        shorts.push(short_type_name(full_paths[i]));
        i = i + 1;
    }
    let mut names: Vec<String> = Vec::new();
    let mut i: usize = 0;
    while i < full_paths.len()
        invariant
            i <= full_paths@.len(),
            paths == path_views(full_paths@),
            shorts@.len() == full_paths@.len(),
            forall|j: int| 0 <= j < shorts@.len() ==> #[trigger] shorts@[j]@ == short_name(paths[j]),
            names@.len() == i,
            forall|j: int| 0 <= j < i ==> #[trigger] names@[j]@ == display_name_at(paths, j),
        decreases full_paths@.len() - i,
    {
        let mut collides = false;
        let mut j: usize = 0;
        while j < shorts.len()
            invariant
                i < full_paths@.len(),
                j <= shorts@.len(),
                shorts@.len() == full_paths@.len(),
                paths == path_views(full_paths@),
                forall|m: int| 0 <= m < shorts@.len() ==> #[trigger] shorts@[m]@ == short_name(paths[m]),
                collides == exists|m: int|
                    0 <= m < j && m != i && short_name(paths[m]) == short_name(paths[i as int]),
            decreases shorts@.len() - j,
        {
            if j != i && str_eq(shorts[j], shorts[i]) {
                collides = true;
            }
            j = j + 1;
        }
        if collides {
            names.push(string_of(full_paths[i]));
        } else {
            names.push(string_of(shorts[i]));
        }
        i = i + 1;
    }
    names
}

/// The component types a capture could not carry, each once, ascending —
/// however many entities held them.
pub fn uncaptured_type_names(found: &[String]) -> (names: Vec<String>)
    ensures
        strictly_sorted(name_views(names@)),
        name_views(names@).to_set() == name_views(found@).to_set(),
{
    let set = SortedNames::from_names(found);
    let names = set.to_vec();
    proof {
        assert(set@.to_set() == set.contents());
    }
    names
}

/// The warning shown on entering Play when the Play → Stop round trip
/// will lose component types.
pub open spec fn loss_warning_text(uncaptured: Seq<Seq<char>>, shown: Seq<Seq<char>>) -> Option<Seq<char>> {
    if uncaptured.len() == 0 {
        None
    } else {
        Some(
            decimal(uncaptured.len()) + " component type(s) not in the editor registry will be lost on Stop: "@
                + joined(shown, ", "@),
        )
    }
}

/// The report shown after the snapshot was restored, naming what was
/// dropped.
pub open spec fn drop_report_text(uncaptured: Seq<Seq<char>>, shown: Seq<Seq<char>>) -> Option<Seq<char>> {
    if uncaptured.len() == 0 {
        None
    } else {
        Some(
            "Restored authored scene; dropped "@ + decimal(uncaptured.len())
                + " unregistered component type(s): "@ + joined(shown, ", "@),
        )
    }
}

/// The display names of `paths`, in order.
pub open spec fn shown_names(paths: Seq<Seq<char>>) -> Seq<Seq<char>> {
    Seq::new(paths.len(), |i: int| display_name_at(paths, i))
}

/// Player-facing warning to show when entering Play, if anything will be
/// lost by the Play → Stop round trip; nothing when capture was complete.
pub fn loss_warning(uncaptured: &[&str]) -> (warning: Option<String>)
    ensures
        match warning {
            Some(w) => loss_warning_text(path_views(uncaptured@), shown_names(path_views(uncaptured@)))
                == Some(w@),
            None => uncaptured@.len() == 0,
        },
{
    if uncaptured.len() == 0 {
        return None;
    }
    let shown = display_names(uncaptured);
    assert(shown@.map_values(|t: String| t@) =~= shown_names(path_views(uncaptured@)));
    let mut s = String::new();
    push_decimal(&mut s, uncaptured.len() as u64);
    push_str(&mut s, " component type(s) not in the editor registry will be lost on Stop: ");
    push_joined(&mut s, shown.as_slice(), ", ");
    proof {
        assert(s@ =~= decimal(uncaptured@.len())
            + " component type(s) not in the editor registry will be lost on Stop: "@ + joined(
            shown_names(path_views(uncaptured@)),
            ", "@,
        ));
    }
    Some(s)
}

/// Player-facing report to show after the snapshot has been restored,
/// naming what was actually dropped; nothing when capture was complete.
pub fn drop_report(uncaptured: &[&str]) -> (report: Option<String>)
    ensures
        match report {
            Some(r) => drop_report_text(path_views(uncaptured@), shown_names(path_views(uncaptured@)))
                == Some(r@),
            None => uncaptured@.len() == 0,
        },
{
    if uncaptured.len() == 0 {
        return None;
    }
    let shown = display_names(uncaptured);
    assert(shown@.map_values(|t: String| t@) =~= shown_names(path_views(uncaptured@)));
    let mut s = string_of("Restored authored scene; dropped ");
    push_decimal(&mut s, uncaptured.len() as u64);
    push_str(&mut s, " unregistered component type(s): ");
    push_joined(&mut s, shown.as_slice(), ", ");
    proof {
        assert(s@ =~= "Restored authored scene; dropped "@ + decimal(uncaptured@.len())
            + " unregistered component type(s): "@ + joined(shown_names(path_views(uncaptured@)), ", "@));
    }
    Some(s)
}

} // verus!
