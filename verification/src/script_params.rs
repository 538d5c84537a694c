//! Script parameter names in the inspector: the name a new parameter gets,
//! and when a rename of one is taken.

use vstd::prelude::*;

use crate::names::name_views;
use crate::text::{decimal, digit_char, push_decimal, str_eq, string_of, trim, trimmed};

verus! {

/// The `n`th generated parameter name, `param_n`.
pub open spec fn param_name(n: nat) -> Seq<char> {
    "param_"@ + decimal(n)
}

/// Different numbers are written differently.
pub proof fn lemma_decimal_injective(a: nat, b: nat)
    ensures
        decimal(a) == decimal(b) ==> a == b,
    decreases a,
{
    if decimal(a) == decimal(b) {
        lemma_decimal_len(a);
        lemma_decimal_len(b);
        if a < 10 && b < 10 {
            assert(decimal(a)[0] == digit_char(a));
            assert(decimal(b)[0] == digit_char(b));
            assert((digit_char(a) as int) == 48 + a);
            assert((digit_char(b) as int) == 48 + b);
        } else if a >= 10 && b >= 10 {
            assert(decimal(a).drop_last() == decimal(a / 10));
            assert(decimal(b).drop_last() == decimal(b / 10));
            lemma_decimal_injective(a / 10, b / 10);
            assert(decimal(a).last() == digit_char(a % 10));
            assert(decimal(b).last() == digit_char(b % 10));
            assert((digit_char(a % 10) as int) == 48 + a % 10);
            assert((digit_char(b % 10) as int) == 48 + b % 10);
        }
    }
}

/// A number below ten takes one digit, a larger one more.
proof fn lemma_decimal_len(n: nat)
    ensures
        decimal(n).len() >= 1,
        n < 10 <==> decimal(n).len() == 1,
    decreases n,
{
    if n >= 10 {
        lemma_decimal_len(n / 10);
    }
}

/// Different numbers give different parameter names.
pub proof fn lemma_param_name_injective(a: nat, b: nat)
    ensures
        param_name(a) == param_name(b) ==> a == b,
{
    if param_name(a) == param_name(b) {
        let p = "param_"@;
        assert(param_name(a).skip(p.len() as int) =~= decimal(a));
        assert(param_name(b).skip(p.len() as int) =~= decimal(b));
        lemma_decimal_injective(a, b);
    }
}

/// When the names `param_1` … `param_n` are all taken, there are at least
/// `n` names.
proof fn lemma_taken_bound(names: Seq<Seq<char>>, n: nat)
    requires
        forall|m: nat| 1 <= m <= n ==> names.contains(#[trigger] param_name(m)),
    ensures
        n <= names.len(),
{
    let f = |m: int| param_name(m as nat);
    let range = vstd::set_lib::set_int_range(1, n as int + 1);
    vstd::set_lib::lemma_int_range(1, n as int + 1);
    assert(vstd::relations::injective_on(f, range)) by {
        assert forall|x: int, y: int| range.contains(x) && range.contains(y) && #[trigger] f(x) == #[trigger] f(y) implies x == y by {
            lemma_param_name_injective(x as nat, y as nat);
        }
    }
    let taken = range.map(f);
    vstd::set_lib::lemma_map_size(range, taken, f);
    assert(taken.subset_of(names.to_set())) by {
        assert forall|x: Seq<char>| taken.contains(x) implies names.to_set().contains(x) by {
            let m = choose|m: int| range.contains(m) && f(m) == x;
            assert(names.contains(param_name(m as nat)));
        }
    }
    names.lemma_cardinality_of_set();
    vstd::seq_lib::seq_to_set_is_finite(names);
    vstd::set_lib::lemma_len_subset(taken, names.to_set());
}

/// First `param_N` not already taken among a script's parameter names.
pub fn unique_param_name(taken: &[String]) -> (name: String)
    requires
        taken@.len() < usize::MAX,
    ensures
        exists|n: nat|
            #![trigger param_name(n)]
            1 <= n && name@ == param_name(n) && !name_views(taken@).contains(param_name(n)) && forall|m: nat|
                1 <= m < n ==> name_views(taken@).contains(#[trigger] param_name(m)),
{
    let ghost names = name_views(taken@);
    let mut n: usize = 1;
    loop
        invariant
            1 <= n <= taken@.len() + 1,
            taken@.len() < usize::MAX,
            names == name_views(taken@),
            forall|m: nat| 1 <= m < n ==> names.contains(#[trigger] param_name(m)),
        decreases taken@.len() + 1 - n,
    {
        let mut candidate = string_of("param_");
        push_decimal(&mut candidate, n as u64);
        assert(candidate@ == param_name(n as nat));
        let mut found = false;
        let mut i: usize = 0;
        while i < taken.len()
            invariant
                i <= taken@.len(),
                names == name_views(taken@),
                found == exists|j: int| 0 <= j < i && names[j] == candidate@,
            decreases taken@.len() - i,
        {
            assert(names[i as int] == taken@[i as int]@);
            if str_eq(taken[i].as_str(), candidate.as_str()) {
                found = true;
            }
            i = i + 1;
        }
        if !found {
            assert(!names.contains(param_name(n as nat)));
            return candidate;
        }
        proof {
            assert(names.contains(param_name(n as nat)));
            lemma_taken_bound(names, n as nat);
        }
        n = n + 1;
    }
}

/// The name a parameter rename settles on: the typed text without
/// surrounding white space, when that is not empty, not the current name,
/// and not another parameter's — no silent clobber.
pub open spec fn param_rename_result(raw: Seq<char>, key: Seq<char>, taken: Seq<Seq<char>>) -> Option<Seq<char>> {
    let t = trimmed(raw);
    if t.len() > 0 && t != key && !taken.contains(t) {
        Some(t)
    } else {
        None
    }
}

/// The new key of a parameter whose name row was edited to `raw`, if the
/// rename is taken.
pub fn param_rename(raw: &str, key: &str, taken: &[String]) -> (renamed: Option<String>)
    ensures
        match renamed {
            Some(r) => param_rename_result(raw@, key@, name_views(taken@)) == Some(r@),
            None => param_rename_result(raw@, key@, name_views(taken@)) is None,
        },
{
    let t = trim(raw);
    if t.unicode_len() == 0 || str_eq(t, key) {
        return None;
    }
    let mut i: usize = 0;
    while i < taken.len()
        invariant
            i <= taken@.len(),
            t@ == trimmed(raw@),
            t@.len() > 0,
            t@ != key@,
            forall|j: int| 0 <= j < i ==> name_views(taken@)[j] != t@,
        decreases taken@.len() - i,
    {
        if str_eq(taken[i].as_str(), t) {
            assert(name_views(taken@)[i as int] == t@);
            assert(name_views(taken@).contains(t@));
            return None;
        }
        i = i + 1;
    }
    Some(string_of(t))
}

} // verus!
