//! Hierarchy panel state: which rows are collapsed, the rows of the last
//! pass in draw order (for Shift-click ranges), the inline rename and the
//! rule that keeps its keyboard focus honest, and the names rows show.
//!
//! The host walks the scene and draws; it reports each row it laid out and
//! each it drew, and asks the panel what the keyboard focus should do.

use std::collections::HashSet;

use vstd::prelude::*;

use crate::drag_drop::{DragDropState, DragPayload, DragState};
use crate::entity::EntityId;
use crate::selection::Selection;
use crate::text::{decimal, opt_chars, push_decimal, push_str, str_eq, string_of, trim, trimmed};

verus! {

broadcast use vstd::std_specs::hash::group_hash_axioms;

/// Passes that draw no rows a rename survives before it ends — about half
/// a second at sixty frames: a splitter dragged through zero keeps its
/// rename; a panel left collapsed or hidden does not keep the keyboard for
/// longer than that. Frames, not wall-clock time.
pub const EMPTY_PASS_GRACE: u8 = 30;

/// Result of resolving an entity by its `Name` component.
#[derive(Debug, Clone, PartialEq, Eq)]
pub enum NameResolution {
    /// No entity carries this name.
    NotFound,
    /// Exactly one match.
    One(EntityId),
    /// Multiple entities share the name — callers report, never pick one.
    Ambiguous(Vec<EntityId>),
}

/// What was clicked in the hierarchy panel.
#[derive(Debug, Clone, Copy, PartialEq, Eq, Structural)]
pub enum HierarchyClick {
    /// An entity row was clicked.
    Entity(EntityId),
    /// A script pseudo-row was clicked.
    Script { entity: EntityId, index: usize },
}

/// What one hierarchy render pass reported back to the host.
#[derive(Debug, Default)]
pub struct HierarchyResponse {
    /// Items clicked for selection this frame.
    pub clicked: Vec<HierarchyClick>,
    /// An inline rename committed this frame (entity, new text). The text is
    /// raw — the host normalizes it (see [`normalized_rename`]) and records
    /// the undo command.
    pub rename_committed: Option<(EntityId, String)>,
    /// A script asset dropped onto an entity row (entity, asset-relative path).
    pub script_dropped: Option<(EntityId, String)>,
}

/// A drop onto an entity row (`inside` its bounds): the row takes it, and
/// a script asset dropped there is attached to the entity — reported as
/// the entity with the script's path. Any other asset dropped on a row is
/// taken and ignored.
pub fn take_script_drop<P: Copy>(drag_drop: &mut DragDropState<P>, inside: bool, entity: EntityId) -> (dropped: Option<(EntityId, String)>)
    ensures
        final(drag_drop).released_spec() == old(drag_drop).released_spec(),
        match old(drag_drop).state_spec() {
            DragState::Dropped { payload, .. } => if inside {
                &&& final(drag_drop).state_spec() is Idle
                &&& match payload {
                    DragPayload::Script { path } => dropped matches Some((e, p)) && e == entity && p@ == path@,
                    _ => dropped is None,
                }
            } else {
                dropped is None && final(drag_drop).state_spec() == old(drag_drop).state_spec()
            },
            _ => dropped is None && final(drag_drop).state_spec() == old(drag_drop).state_spec(),
        },
{
    match drag_drop.take_drop_if(inside) {
        Some((DragPayload::Script { path }, _)) => Some((entity, path)),
        _ => None,
    }
}

/// The name a rename commit settles on: the raw text without surrounding
/// white space, unless that is empty or the name the entity already has.
pub open spec fn rename_result(current: Option<Seq<char>>, raw: Seq<char>) -> Option<Seq<char>> {
    let t = trimmed(raw);
    if t.len() == 0 || current == Some(t) {
        None
    } else {
        Some(t)
    }
}

/// Normalize a rename commit: whitespace-trimmed, with empty and unchanged
/// results rejected — an entity can never be stranded with a blank `Name`,
/// and a no-op commit records no undo entry.
pub fn normalized_rename(current: Option<&str>, raw: &str) -> (name: Option<String>)
    ensures
        match name {
            Some(n) => rename_result(opt_chars(current), raw@) == Some(n@),
            None => rename_result(opt_chars(current), raw@) is None,
        },
{
    let t = trim(raw);
    if t.unicode_len() == 0 {
        return None;
    }
    match current {
        Some(c) => {
            if str_eq(t, c) {
                return None;
            }
        },
        None => {},
    }
    Some(string_of(t))
}

/// The name an entity shows anywhere in the editor: its `Name`, else
/// "Sprite (Entity n)" for a sprite, "RigidBody (Entity n)" for a body,
/// else "Entity n".
pub open spec fn display_name(name: Option<Seq<char>>, has_sprite: bool, has_rigid_body: bool, index: u64) -> Seq<char> {
    match name {
        Some(n) => n,
        None => if has_sprite {
            "Sprite (Entity "@ + decimal(index as nat) + ")"@
        } else if has_rigid_body {
            "RigidBody (Entity "@ + decimal(index as nat) + ")"@
        } else {
            "Entity "@ + decimal(index as nat)
        },
    }
}

/// The entity's display name, from what the host read off it: its `Name`
/// component and whether it has a `Sprite` or a `RigidBody`.
pub fn entity_display_name(name: Option<&str>, has_sprite: bool, has_rigid_body: bool, entity: EntityId) -> (shown: String)
    ensures
        shown@ == display_name(opt_chars(name), has_sprite, has_rigid_body, entity.index),
{
    match name {
        Some(n) => string_of(n),
        None => {
            let mut s = String::new();
            if has_sprite {
                push_str(&mut s, "Sprite (Entity ");
                push_decimal(&mut s, entity.value());
                push_str(&mut s, ")");
            } else if has_rigid_body {
                push_str(&mut s, "RigidBody (Entity ");
                push_decimal(&mut s, entity.value());
                push_str(&mut s, ")");
            } else {
                push_str(&mut s, "Entity ");
                push_decimal(&mut s, entity.value());
            }
            s
        },
    }
}

/// What `Path::file_stem` gives for `path`: the final component's name
/// without its extension (the whole name when it has none, or when its
/// only dot leads), or nothing when there is no final component.
pub uninterp spec fn file_stem_of(path: Seq<char>) -> Option<Seq<char>>;

/// `Path::file_stem` on `path`, claimed to give [`file_stem_of`] of it.
/// `Path::new` only views the `&str` as a path and `OsStr::to_str` only
/// reads the stem back as the `&str` slice it was cut from (a stem taken
/// from a `&str` is always valid UTF-8), so `file_stem` is the one call
/// here that computes; `OsStr` cannot appear in a signature of this crate.
#[verifier::external_body]
fn path_file_stem(path: &str) -> (stem: Option<&str>)
    ensures
        opt_chars(stem) == file_stem_of(path@),
{
    match std::path::Path::new(path).file_stem() {
        Some(s) => s.to_str(),
        None => None,
    }
}

/// A script pseudo-row's label, given the stem of its trimmed source path:
/// its trimmed id; else the trimmed stem of its source; else "script".
pub open spec fn script_label(script_id: Seq<char>, source_path: Seq<char>, stem: Option<Seq<char>>) -> Seq<char> {
    if trimmed(script_id).len() > 0 {
        trimmed(script_id)
    } else if trimmed(source_path).len() > 0 && stem is Some && trimmed(stem->0).len() > 0 {
        trimmed(stem->0)
    } else {
        "script"@
    }
}

/// The label of a script pseudo-row, with the stem of its source path
/// already taken.
pub fn script_label_with_stem(script_id: &str, source_path: &str, stem: Option<&str>) -> (label: String)
    ensures
        label@ == script_label(script_id@, source_path@, opt_chars(stem)),
{
    let id = trim(script_id);
    if id.unicode_len() > 0 {
        return string_of(id);
    }
    let path = trim(source_path);
    if path.unicode_len() > 0 {
        match stem {
            Some(s) => {
                let s = trim(s);
                if s.unicode_len() > 0 {
                    return string_of(s);
                }
            },
            None => {},
        }
    }
    string_of("script")
}

/// The label of a script pseudo-row: its id, else its source file's stem,
/// else "script".
pub fn script_display_label(script_id: &str, source_path: &str) -> (label: String)
    ensures
        label@ == script_label(script_id@, source_path@, file_stem_of(trimmed(source_path@))),
{
    let path = trim(source_path);
    let stem = path_file_stem(path);
    script_label_with_stem(script_id, source_path, stem)
}

/// The ids of the entries whose name is `name`, in entry order.
pub open spec fn name_matches(entries: Seq<(EntityId, String)>, name: Seq<char>) -> Seq<EntityId>
    decreases entries.len(),
{
    if entries.len() == 0 {
        Seq::empty()
    } else {
        let rest = name_matches(entries.drop_last(), name);
        if entries.last().1@ == name {
            rest.push(entries.last().0)
        } else {
            rest
        }
    }
}

/// Ascending by index.
pub open spec fn sorted_by_index(ids: Seq<EntityId>) -> bool {
    forall|i: int, j: int| 0 <= i < j < ids.len() ==> ids[i].index <= ids[j].index
}

/// The resolution of `name` among named entities: none, the one, or all of
/// them, a permutation of the matches ascending by index.
pub open spec fn resolves_to(entries: Seq<(EntityId, String)>, name: Seq<char>, r: NameResolution) -> bool {
    let m = name_matches(entries, name);
    match r {
        NameResolution::NotFound => m.len() == 0,
        NameResolution::One(e) => m.len() == 1 && m[0] == e,
        NameResolution::Ambiguous(all) => m.len() >= 2 && all@.to_multiset() == m.to_multiset()
            && sorted_by_index(all@),
    }
}

/// Resolve an entity by exact `Name` among the host's named entities
/// (each id with its name): synthesized display names are addressable by
/// id instead. Nothing enforces name uniqueness, so ambiguity is reported,
/// sorted by id so the report is stable, never silently resolved to the
/// first match.
pub fn resolve_by_name(entries: &[(EntityId, String)], name: &str) -> (r: NameResolution)
    ensures
        resolves_to(entries@, name@, r),
{
    let mut found: Vec<EntityId> = Vec::new();
    let mut i: usize = 0;
    while i < entries.len()
        invariant
            i <= entries@.len(),
            sorted_by_index(found@),
            found@.to_multiset() == name_matches(entries@.take(i as int), name@).to_multiset(),
        decreases entries@.len() - i,
    {
        proof {
            assert(entries@.take(i + 1).drop_last() =~= entries@.take(i as int));
        }
        if str_eq(entries[i].1.as_str(), name) {
            let e = entries[i].0;
            let mut p: usize = 0;
            while p < found.len() && found[p].index <= e.index
                invariant
                    p <= found@.len(),
                    forall|k: int| 0 <= k < p ==> #[trigger] found@[k].index <= e.index,
                decreases found@.len() - p,
            {
                p = p + 1;
            }
            let ghost before = found@;
            found.insert(p, e);
            proof {
                vstd::seq_lib::to_multiset_insert(before, p as int, e);
                vstd::seq_lib::to_multiset_build(name_matches(entries@.take(i as int), name@), e);
                assert forall|a: int, b: int| 0 <= a < b < found@.len() implies found@[a].index
                    <= found@[b].index by {
                    if b < p {
                        assert(found@[a] == before[a] && found@[b] == before[b]);
                    } else if b == p {
                        assert(found@[a] == before[a]);
                    } else if a < p {
                        assert(found@[a] == before[a] && found@[b] == before[b - 1]);
                    } else if a == p {
                        assert(found@[b] == before[b - 1]);
                        assert(b - 1 >= p);
                    } else {
                        assert(found@[a] == before[a - 1] && found@[b] == before[b - 1]);
                    }
                }
            }
        }
        i = i + 1;
    }
    proof {
        assert(entries@.take(i as int) =~= entries@);
        vstd::seq_lib::to_multiset_len(found@);
        vstd::seq_lib::to_multiset_len(name_matches(entries@, name@));
    }
    if found.len() == 0 {
        NameResolution::NotFound
    } else if found.len() == 1 {
        proof {
            let m = name_matches(entries@, name@);
            vstd::seq_lib::to_multiset_contains(m, m[0]);
            vstd::seq_lib::to_multiset_contains(found@, m[0]);
            assert(m.contains(m[0]));
        }
        NameResolution::One(found[0])
    } else {
        NameResolution::Ambiguous(found)
    }
}

/// The first position of `e` in `order`.
pub open spec fn index_of(order: Seq<EntityId>, e: EntityId) -> Option<int>
    decreases order.len(),
{
    if order.len() == 0 {
        None
    } else {
        match index_of(order.drop_last(), e) {
            Some(i) => Some(i),
            None => if order.last() == e {
                Some(order.len() - 1)
            } else {
                None
            },
        }
    }
}

/// `index_of` finds the earliest occurrence.
pub proof fn lemma_index_of(order: Seq<EntityId>, e: EntityId)
    ensures
        match index_of(order, e) {
            Some(i) => 0 <= i < order.len() && order[i] == e && forall|j: int|
                0 <= j < i ==> order[j] != e,
            None => forall|j: int| 0 <= j < order.len() ==> order[j] != e,
        },
    decreases order.len(),
{
    if order.len() > 0 {
        let d = order.drop_last();
        lemma_index_of(d, e);
        match index_of(d, e) {
            Some(i) => {
                assert(d[i] == order[i]);
                assert forall|j: int| 0 <= j < i implies order[j] != e by {
                    assert(d[j] == order[j]);
                }
            },
            None => {
                assert forall|j: int| 0 <= j < order.len() - 1 implies order[j] != e by {
                    assert(d[j] == order[j]);
                }
            },
        }
    }
}

/// The last position of `order` whose entity is selected.
pub open spec fn last_selected_index(order: Seq<EntityId>, selected: Seq<(u64, u32)>) -> Option<int>
    decreases order.len(),
{
    if order.len() == 0 {
        None
    } else if selected.contains(order.last()@) {
        Some(order.len() - 1)
    } else {
        last_selected_index(order.drop_last(), selected)
    }
}

/// `last_selected_index` finds the latest selected row.
pub proof fn lemma_last_selected_index(order: Seq<EntityId>, selected: Seq<(u64, u32)>)
    ensures
        match last_selected_index(order, selected) {
            Some(i) => 0 <= i < order.len() && selected.contains(order[i]@) && forall|j: int|
                i < j < order.len() ==> !selected.contains(#[trigger] order[j]@),
            None => forall|j: int| 0 <= j < order.len() ==> !selected.contains(#[trigger] order[j]@),
        },
    decreases order.len(),
{
    if order.len() > 0 && !selected.contains(order.last()@) {
        let d = order.drop_last();
        lemma_last_selected_index(d, selected);
        match last_selected_index(d, selected) {
            Some(i) => {
                assert(d[i] == order[i]);
                assert forall|j: int| i < j < order.len() implies !selected.contains(
                    #[trigger] order[j]@,
                ) by {
                    if j < order.len() - 1 {
                        assert(d[j] == order[j]);
                    }
                }
            },
            None => {
                assert forall|j: int| 0 <= j < order.len() implies !selected.contains(
                    #[trigger] order[j]@,
                ) by {
                    if j < order.len() - 1 {
                        assert(d[j] == order[j]);
                    }
                }
            },
        }
    }
}

/// The rows a Shift-click on `target` selects, anchor first: from the
/// primary when it is a row of `order`, else from the last selected row;
/// nothing when `target` or every selected row is missing from `order`.
pub open spec fn shift_range(
    order: Seq<EntityId>,
    primary: Option<EntityId>,
    selected: Seq<(u64, u32)>,
    target: EntityId,
) -> Option<Seq<EntityId>> {
    let anchor = match primary {
        Some(p) => match index_of(order, p) {
            Some(a) => Some(a),
            None => last_selected_index(order, selected),
        },
        None => last_selected_index(order, selected),
    };
    match (index_of(order, target), anchor) {
        (Some(t), Some(a)) => Some(
            if a <= t {
                order.subrange(a, t + 1)
            } else {
                order.subrange(t, a + 1).reverse()
            },
        ),
        _ => None,
    }
}

/// When the primary is a visible row, a Shift-click range anchors on it:
/// the range runs from the primary's (first) row to the target's (first)
/// row, through the rows between them in visible order, primary first and
/// target last, whatever else is selected.
pub proof fn lemma_shift_range_anchors_on_a_visible_primary(
    order: Seq<EntityId>,
    primary: EntityId,
    selected: Seq<(u64, u32)>,
    target: EntityId,
    a: int,
    t: int,
)
    requires
        0 <= a < order.len(),
        order[a] == primary,
        forall|k: int| 0 <= k < a ==> order[k] != primary,
        0 <= t < order.len(),
        order[t] == target,
        forall|k: int| 0 <= k < t ==> order[k] != target,
    ensures
        shift_range(order, Some(primary), selected, target) is Some,
        ({
            let r = shift_range(order, Some(primary), selected, target)->0;
            &&& r.len() == (if a <= t { t - a + 1 } else { a - t + 1 })
            &&& r[0] == primary
            &&& r[r.len() - 1] == target
            &&& forall|k: int|
                0 <= k < r.len() ==> #[trigger] r[k] == order[if a <= t { a + k } else { a - k }]
        }),
{
    lemma_index_of(order, primary);
    lemma_index_of(order, target);
    let r = shift_range(order, Some(primary), selected, target)->0;
    if a <= t {
        assert forall|k: int| 0 <= k < r.len() implies #[trigger] r[k] == order[a + k] by {}
    } else {
        assert forall|k: int| 0 <= k < r.len() implies #[trigger] r[k] == order[a - k] by {
            let sub = order.subrange(t, a + 1);
            assert(r[k] == sub[sub.len() - 1 - k]);
        }
    }
}

/// When there is no primary, or it is not a visible row, a Shift-click
/// range anchors on the last visible row that is selected: it starts at
/// a selected row after which no row is selected, and ends at the target.
/// With no selected row visible there is no range.
pub proof fn lemma_shift_range_falls_back_to_the_last_selected_row(
    order: Seq<EntityId>,
    primary: Option<EntityId>,
    selected: Seq<(u64, u32)>,
    target: EntityId,
)
    requires
        match primary {
            Some(p) => forall|k: int| 0 <= k < order.len() ==> order[k] != p,
            None => true,
        },
    ensures
        match shift_range(order, primary, selected, target) {
            Some(r) => r.len() > 0 && r[r.len() - 1] == target && exists|s: int|
                0 <= s < order.len() && order[s] == r[0] && selected.contains(order[s]@) && forall|j: int|
                    s < j < order.len() ==> !selected.contains(#[trigger] order[j]@),
            None => (forall|j: int| 0 <= j < order.len() ==> order[j] != target) || forall|j: int|
                0 <= j < order.len() ==> !selected.contains(#[trigger] order[j]@),
        },
{
    lemma_last_selected_index(order, selected);
    lemma_index_of(order, target);
    if let Some(p) = primary {
        lemma_index_of(order, p);
    }
    match shift_range(order, primary, selected, target) {
        Some(r) => {
            let s = last_selected_index(order, selected)->0;
            let t = index_of(order, target)->0;
            if s > t {
                let sub = order.subrange(t, s + 1);
                assert(r[0] == sub[sub.len() - 1]);
            }
            assert(order[s] == r[0]);
        },
        None => {},
    }
}

/// The inline rename's keyboard bookkeeping between passes.
pub struct RenameFocus {
    /// Row in inline-rename mode.
    pub renaming: Option<EntityId>,
    /// The last row a rename was opened on, kept until that field's focus
    /// has been accounted for.
    pub last_rename: Option<EntityId>,
    /// Whether the field was drawn in the last pass.
    pub field_drawn: bool,
    /// Whether the last pass drew any row.
    pub any_row_drawn: bool,
    /// Consecutive passes that drew no rows while the rename was open.
    pub empty_passes: nat,
}

/// A rename in progress is the one last opened; the grace count never
/// passes its bound.
pub open spec fn focus_wf(f: RenameFocus) -> bool {
    &&& (f.renaming is Some ==> f.last_rename == f.renaming)
    &&& f.empty_passes <= EMPTY_PASS_GRACE
}

/// Whether a click on the row's arrow toggles it: the row has children
/// and is not being renamed.
pub open spec fn arrow_toggles(f: RenameFocus, e: EntityId, has_children: bool, arrow_clicked: bool) -> bool {
    has_children && f.renaming != Some(e) && arrow_clicked
}

/// The click a row reports: its own, unless it is being renamed, its arrow
/// took the click, or clicks are suppressed.
pub open spec fn row_click(
    f: RenameFocus,
    e: EntityId,
    has_children: bool,
    arrow_clicked: bool,
    row_clicked: bool,
    suppress_click: bool,
) -> Option<HierarchyClick> {
    if f.renaming != Some(e) && row_clicked && !arrow_toggles(f, e, has_children, arrow_clicked)
        && !suppress_click {
        Some(HierarchyClick::Entity(e))
    } else {
        None
    }
}

/// One settle of the rename focus: the new bookkeeping, and the rename
/// whose field focus is to be dropped (if its field still holds it).
pub open spec fn settle(f: RenameFocus) -> (RenameFocus, Option<EntityId>) {
    let cleared = RenameFocus { field_drawn: false, any_row_drawn: false, ..f };
    match f.last_rename {
        None => (cleared, None),
        Some(last) => if f.renaming == Some(last) && f.field_drawn {
            (RenameFocus { empty_passes: 0, ..cleared }, None)
        } else if f.renaming == Some(last) && !f.any_row_drawn && f.empty_passes < EMPTY_PASS_GRACE {
            (RenameFocus { empty_passes: f.empty_passes + 1, ..cleared }, None)
        } else {
            (
                RenameFocus {
                    renaming: if f.renaming == Some(last) {
                        None
                    } else {
                        f.renaming
                    },
                    last_rename: None,
                    empty_passes: 0,
                    ..cleared
                },
                Some(last),
            )
        },
    }
}

/// `k` settles in a row with nothing drawn between them.
pub open spec fn idle_settles(f: RenameFocus, k: nat) -> RenameFocus
    decreases k,
{
    if k == 0 {
        f
    } else {
        idle_settles(settle(f).0, (k - 1) as nat)
    }
}

/// Settling keeps the bookkeeping well formed.
pub proof fn lemma_settle_wf(f: RenameFocus)
    requires
        focus_wf(f),
    ensures
        focus_wf(settle(f).0),
{
}

/// Focus follows the drawn field: a rename whose panel draws nothing —
/// collapsed to a strip, hidden — ends within the grace passes and one
/// more, and its keyboard focus is dropped.
pub proof fn lemma_idle_rename_ends(f: RenameFocus)
    requires
        focus_wf(f),
        !f.field_drawn,
        !f.any_row_drawn,
    ensures
        idle_settles(f, (EMPTY_PASS_GRACE + 1) as nat).renaming is None,
    decreases EMPTY_PASS_GRACE - f.empty_passes,
{
    lemma_idle_settles_stay_ended(f, (EMPTY_PASS_GRACE + 1) as nat);
}

/// From an idle state the rename has ended after `k` settles once `k`
/// exceeds the grace left.
proof fn lemma_idle_settles_stay_ended(f: RenameFocus, k: nat)
    requires
        focus_wf(f),
        !f.field_drawn,
        !f.any_row_drawn,
        k >= EMPTY_PASS_GRACE + 1 - f.empty_passes,
    ensures
        idle_settles(f, k).renaming is None,
    decreases k,
{
    if f.renaming is None {
        lemma_none_stays_none(f, k);
    } else {
        let next = settle(f).0;
        assert(k > 0);
        if next.renaming is None {
            lemma_none_stays_none(next, (k - 1) as nat);
        } else {
            lemma_idle_settles_stay_ended(next, (k - 1) as nat);
        }
    }
}

/// Idle settles never start a rename.
proof fn lemma_none_stays_none(f: RenameFocus, k: nat)
    requires
        f.renaming is None,
    ensures
        idle_settles(f, k).renaming is None,
    decreases k,
{
    if k > 0 {
        lemma_none_stays_none(settle(f).0, (k - 1) as nat);
    }
}

/// The number an entity is kept under in the collapsed set: its index
/// above its generation, so different entities never share one.
pub open spec fn key_of(e: EntityId) -> u128 {
    (e.index * 0x1_0000_0000int + e.generation) as u128
}

/// Different entities have different keys.
pub proof fn lemma_key_of_injective(a: EntityId, b: EntityId)
    ensures
        key_of(a) == key_of(b) <==> a == b,
{
    let (ia, ga, ib, gb) = (a.index as int, a.generation as int, b.index as int, b.generation as int);
    assert(ia * 0x1_0000_0000 + ga == ib * 0x1_0000_0000 + gb ==> ia == ib && ga == gb) by (nonlinear_arith)
        requires
            0 <= ga < 0x1_0000_0000,
            0 <= gb < 0x1_0000_0000,
            0 <= ia,
            0 <= ib,
    ;
    assert(0 <= ia * 0x1_0000_0000 + ga < 0x1_0000_0000_0000_0000_0000_0000) by (nonlinear_arith)
        requires
            0 <= ga < 0x1_0000_0000,
            0 <= ia < 0x1_0000_0000_0000_0000,
    ;
    assert(0 <= ib * 0x1_0000_0000 + gb < 0x1_0000_0000_0000_0000_0000_0000) by (nonlinear_arith)
        requires
            0 <= gb < 0x1_0000_0000,
            0 <= ib < 0x1_0000_0000_0000_0000,
    ;
}

/// An entity's key in the collapsed set.
pub fn entity_key(e: EntityId) -> (key: u128)
    ensures
        key == key_of(e),
{
    proof {
        assert(0 <= e.index * 0x1_0000_0000int + e.generation < 0x1_0000_0000_0000_0000_0000_0000) by (nonlinear_arith)
            requires
                0 <= e.generation < 0x1_0000_0000,
                0 <= e.index < 0x1_0000_0000_0000_0000,
        ;
    }
    (e.index as u128) * 0x1_0000_0000u128 + (e.generation as u128)
}

/// `collapsed` with `e` toggled: expanded when it was collapsed, collapsed
/// when it was expanded.
pub open spec fn toggled_collapse(collapsed: Set<EntityId>, e: EntityId) -> Set<EntityId> {
    if collapsed.contains(e) {
        collapsed.remove(e)
    } else {
        collapsed.insert(e)
    }
}

/// Toggling a row's expansion twice leaves every row as it was.
pub proof fn lemma_toggle_expanded_twice(collapsed: Set<EntityId>, e: EntityId)
    ensures
        toggled_collapse(toggled_collapse(collapsed, e), e) == collapsed,
{
    if collapsed.contains(e) {
        assert(collapsed.remove(e).insert(e) =~= collapsed);
    } else {
        assert(collapsed.insert(e).remove(e) =~= collapsed);
    }
}

/// Hierarchy panel state.
#[derive(Debug)]
pub struct HierarchyPanel {
    /// Entities that are collapsed (all expanded by default), by
    /// [`entity_key`].
    collapsed: HashSet<u128>,
    /// Row currently in inline-rename mode (F2), if any.
    renaming: Option<EntityId>,
    /// The last row a rename was opened on.
    last_rename: Option<EntityId>,
    /// Whether the rename field was drawn in the last render pass.
    rename_field_drawn: bool,
    /// Rows drawn in the last render pass, script rows included.
    rows_drawn: usize,
    /// Consecutive passes that drew no rows while a rename was open.
    empty_passes: u8,
    /// Every row of the last render pass in draw order — collapsed
    /// subtrees excluded, off-panel rows included.
    visible_order: Vec<EntityId>,
}

impl HierarchyPanel {
    /// The collapsed entities.
    pub closed spec fn collapsed_spec(&self) -> Set<EntityId> {
        Set::new(|e: EntityId| self.collapsed@.contains(key_of(e)))
    }

    /// The rows of the last pass, in draw order.
    pub closed spec fn order_spec(&self) -> Seq<EntityId> {
        self.visible_order@
    }

    /// The rename bookkeeping.
    pub closed spec fn focus(&self) -> RenameFocus {
        RenameFocus {
            renaming: self.renaming,
            last_rename: self.last_rename,
            field_drawn: self.rename_field_drawn,
            any_row_drawn: self.rows_drawn > 0,
            empty_passes: self.empty_passes as nat,
        }
    }

    /// Well formed: the rename bookkeeping is consistent.
    pub closed spec fn wf(&self) -> bool {
        focus_wf(self.focus())
    }

    /// A panel with everything expanded and no rename open.
    pub fn new() -> (p: Self)
        ensures
            p.wf(),
            p.collapsed_spec() == Set::<EntityId>::empty(),
            p.order_spec() == Seq::<EntityId>::empty(),
            p.focus() == (RenameFocus {
                renaming: None,
                last_rename: None,
                field_drawn: false,
                any_row_drawn: false,
                empty_passes: 0,
            }),
    {
        let p = HierarchyPanel {
            collapsed: HashSet::new(),
            renaming: None,
            last_rename: None,
            rename_field_drawn: false,
            rows_drawn: 0,
            empty_passes: 0,
            visible_order: Vec::new(),
        };
        assert(p.collapsed_spec() =~= Set::<EntityId>::empty());
        p
    }

    /// The rows of the last render pass in draw order (collapsed subtrees
    /// excluded, off-panel rows included).
    pub fn visible_order(&self) -> (order: &[EntityId])
        ensures
            order@ == self.order_spec(),
    {
        self.visible_order.as_slice()
    }

    /// Start a pass: the row order is laid out again from scratch.
    pub fn clear_visible_order(&mut self)
        requires
            old(self).wf(),
        ensures
            final(self).wf(),
            final(self).order_spec() == Seq::<EntityId>::empty(),
            final(self).collapsed_spec() == old(self).collapsed_spec(),
            final(self).focus() == old(self).focus(),
    {
        self.visible_order.clear();
    }

    /// A row laid out this pass, in draw order; `drawn` when it fell inside
    /// the panel and was drawn.
    pub fn note_row(&mut self, entity: EntityId, drawn: bool)
        requires
            old(self).wf(),
        ensures
            final(self).wf(),
            final(self).order_spec() == old(self).order_spec().push(entity),
            final(self).collapsed_spec() == old(self).collapsed_spec(),
            final(self).focus() == (RenameFocus {
                any_row_drawn: old(self).focus().any_row_drawn || drawn,
                ..old(self).focus()
            }),
    {
        self.visible_order.push(entity);
        if drawn {
            self.rows_drawn = self.rows_drawn.saturating_add(1);
        }
    }

    /// A script pseudo-row drawn this pass.
    pub fn note_script_row_drawn(&mut self)
        requires
            old(self).wf(),
        ensures
            final(self).wf(),
            final(self).order_spec() == old(self).order_spec(),
            final(self).collapsed_spec() == old(self).collapsed_spec(),
            final(self).focus() == (RenameFocus { any_row_drawn: true, ..old(self).focus() }),
    {
        self.rows_drawn = self.rows_drawn.saturating_add(1);
    }

    /// The rename field was drawn this pass.
    pub fn note_rename_field_drawn(&mut self)
        requires
            old(self).wf(),
        ensures
            final(self).wf(),
            final(self).order_spec() == old(self).order_spec(),
            final(self).collapsed_spec() == old(self).collapsed_spec(),
            final(self).focus() == (RenameFocus { field_drawn: true, ..old(self).focus() }),
    {
        self.rename_field_drawn = true;
    }

    /// What the drawn rename field did: a commit, or a field that no longer
    /// holds the focus (Escape, focus lost), ends the rename.
    pub fn finish_rename_field(&mut self, committed: bool, focused: bool)
        requires
            old(self).wf(),
        ensures
            final(self).wf(),
            final(self).order_spec() == old(self).order_spec(),
            final(self).collapsed_spec() == old(self).collapsed_spec(),
            final(self).focus() == (if committed || !focused {
                RenameFocus { renaming: None, ..old(self).focus() }
            } else {
                old(self).focus()
            }),
    {
        if committed || !focused {
            self.renaming = None;
        }
    }

    /// A renamed entity that no longer exists must not leave the panel
    /// armed — a recycled id could otherwise open a brand-new entity in
    /// rename mode.
    pub fn forget_missing_rename(&mut self, renamed_entity_exists: bool)
        requires
            old(self).wf(),
        ensures
            final(self).wf(),
            final(self).order_spec() == old(self).order_spec(),
            final(self).collapsed_spec() == old(self).collapsed_spec(),
            final(self).focus() == (if old(self).focus().renaming is Some && !renamed_entity_exists {
                RenameFocus { renaming: None, ..old(self).focus() }
            } else {
                old(self).focus()
            }),
    {
        if self.renaming.is_some() && !renamed_entity_exists {
            self.renaming = None;
        }
    }

    /// The rows a Shift-click on `target` selects, anchor first: from the
    /// primary when it is a visible row, else from the LAST visible selected
    /// row (a primary hidden under a collapsed parent must not silently
    /// collapse the selection to one row). `None` when no selected row is
    /// visible; the host then adds `target` instead.
    pub fn shift_click_range(&self, selection: &Selection, target: EntityId) -> (range: Option<Vec<EntityId>>)
        ensures
            match range {
                Some(r) => shift_range(self.order_spec(), selection.primary_spec(), selection.items(), target)
                    == Some(r@),
                None => shift_range(
                    self.order_spec(),
                    selection.primary_spec(),
                    selection.items(),
                    target,
                ) is None,
            },
    {
        let target_index = match self.position_of(target) {
            Some(t) => t,
            None => return None,
        };
        let anchor = match selection.primary() {
            Some(p) => match self.position_of(p) {
                Some(a) => Some(a),
                None => self.last_selected(selection),
            },
            None => self.last_selected(selection),
        };
        let anchor_index = match anchor {
            Some(a) => a,
            None => return None,
        };
        let n = self.visible_order.len();
        let mut range: Vec<EntityId> = Vec::new();
        if anchor_index <= target_index {
            let mut k: usize = anchor_index;
            while k <= target_index
                invariant
                    anchor_index <= k <= target_index + 1,
                    target_index < n,
                    n == self.visible_order@.len(),
                    range@ =~= self.visible_order@.subrange(anchor_index as int, k as int),
                decreases target_index + 1 - k,
            {
                range.push(self.visible_order[k]);
                k = k + 1;
            }
        } else {
            let mut k: usize = anchor_index + 1;
            while k > target_index
                invariant
                    target_index <= k <= anchor_index + 1,
                    anchor_index < n,
                    n == self.visible_order@.len(),
                    range@ =~= self.visible_order@.subrange(k as int, anchor_index + 1).reverse(),
                decreases k,
            {
                k = k - 1;
                proof {
                    let before = self.visible_order@.subrange(k + 1, anchor_index + 1);
                    let after = self.visible_order@.subrange(k as int, anchor_index + 1);
                    assert(after.reverse() =~= before.reverse().push(self.visible_order@[k as int]));
                }
                range.push(self.visible_order[k]);
            }
        }
        Some(range)
    }

    /// The first position of `e` among the rows.
    fn position_of(&self, e: EntityId) -> (i: Option<usize>)
        ensures
            match i {
                Some(k) => index_of(self.order_spec(), e) == Some(k as int) && k < self.order_spec().len(),
                None => index_of(self.order_spec(), e) is None,
            },
    {
        proof {
            lemma_index_of(self.visible_order@, e);
        }
        let mut k: usize = 0;
        while k < self.visible_order.len()
            invariant
                k <= self.visible_order@.len(),
                forall|j: int| 0 <= j < k ==> self.visible_order@[j] != e,
                match index_of(self.visible_order@, e) {
                    Some(i) => 0 <= i < self.visible_order@.len() && self.visible_order@[i] == e
                        && forall|j: int| 0 <= j < i ==> self.visible_order@[j] != e,
                    None => forall|j: int|
                        0 <= j < self.visible_order@.len() ==> self.visible_order@[j] != e,
                },
            decreases self.visible_order@.len() - k,
        {
            if self.visible_order[k] == e {
                assert(index_of(self.visible_order@, e) == Some(k as int)) by {
                    match index_of(self.visible_order@, e) {
                        Some(i) => {
                            assert(!(i < k));
                            assert(!(i > k));
                        },
                        None => {},
                    }
                }
                return Some(k);
            }
            k = k + 1;
        }
        None
    }

    /// The last row whose entity is selected.
    fn last_selected(&self, selection: &Selection) -> (i: Option<usize>)
        ensures
            match i {
                Some(k) => last_selected_index(self.order_spec(), selection.items()) == Some(k as int)
                    && k < self.order_spec().len(),
                None => last_selected_index(self.order_spec(), selection.items()) is None,
            },
    {
        proof {
            lemma_last_selected_index(self.visible_order@, selection.items());
        }
        let mut k: usize = self.visible_order.len();
        while k > 0
            invariant
                k <= self.visible_order@.len(),
                forall|j: int|
                    k <= j < self.visible_order@.len() ==> !selection.items().contains(
                        #[trigger] self.visible_order@[j]@,
                    ),
                match last_selected_index(self.visible_order@, selection.items()) {
                    Some(i) => 0 <= i < self.visible_order@.len() && selection.items().contains(
                        self.visible_order@[i]@,
                    ) && forall|j: int|
                        i < j < self.visible_order@.len() ==> !selection.items().contains(
                            #[trigger] self.visible_order@[j]@,
                        ),
                    None => forall|j: int|
                        0 <= j < self.visible_order@.len() ==> !selection.items().contains(
                            #[trigger] self.visible_order@[j]@,
                        ),
                },
            decreases k,
        {
            k = k - 1;
            if selection.contains(self.visible_order[k]) {
                assert(last_selected_index(self.visible_order@, selection.items()) == Some(k as int)) by {
                    match last_selected_index(self.visible_order@, selection.items()) {
                        Some(i) => {
                            assert(!(i < k));
                            assert(!(i > k));
                        },
                        None => {},
                    }
                }
                return Some(k);
            }
        }
        None
    }

    /// Whether an entity is expanded (the default).
    pub fn is_expanded(&self, entity: EntityId) -> (expanded: bool)
        ensures
            expanded == !self.collapsed_spec().contains(entity),
    {
        let key = entity_key(entity);
        !self.collapsed.contains(&key)
    }

    /// Collapse an entity's subtree.
    pub fn collapse(&mut self, entity: EntityId)
        requires
            old(self).wf(),
        ensures
            final(self).wf(),
            final(self).collapsed_spec() == old(self).collapsed_spec().insert(entity),
            final(self).order_spec() == old(self).order_spec(),
            final(self).focus() == old(self).focus(),
    {
        let ghost before = self.collapsed_spec();
        self.collapsed.insert(entity_key(entity));
        proof {
            assert forall|e: EntityId| #[trigger] self.collapsed_spec().contains(e) == before.insert(entity).contains(e) by {
                lemma_key_of_injective(e, entity);
            }
            assert(self.collapsed_spec() =~= before.insert(entity));
        }
    }

    /// Expand an entity's subtree.
    pub fn expand(&mut self, entity: EntityId)
        requires
            old(self).wf(),
        ensures
            final(self).wf(),
            final(self).collapsed_spec() == old(self).collapsed_spec().remove(entity),
            final(self).order_spec() == old(self).order_spec(),
            final(self).focus() == old(self).focus(),
    {
        let ghost before = self.collapsed_spec();
        let key = entity_key(entity);
        self.collapsed.remove(&key);
        proof {
            assert forall|e: EntityId| #[trigger] self.collapsed_spec().contains(e) == before.remove(entity).contains(e) by {
                lemma_key_of_injective(e, entity);
            }
            assert(self.collapsed_spec() =~= before.remove(entity));
        }
    }

    /// Toggle expand/collapse state for an entity.
    pub fn toggle_expanded(&mut self, entity: EntityId)
        requires
            old(self).wf(),
        ensures
            final(self).wf(),
            final(self).collapsed_spec() == toggled_collapse(old(self).collapsed_spec(), entity),
            final(self).order_spec() == old(self).order_spec(),
            final(self).focus() == old(self).focus(),
    {
        if self.is_expanded(entity) {
            self.collapse(entity);
        } else {
            self.expand(entity);
        }
    }

    /// A row's answer to this frame's clicks on its arrow and on its label
    /// area, given whether it has children and whether click handlers are
    /// to ignore the click (a drag in flight or its release frame). The
    /// arrow goes inert while its row is being renamed, so the tree never
    /// reflows under an open text field; a live arrow click toggles the
    /// row and is not also a row click; and while the row is renamed its
    /// text field owns the row, so it reports no click.
    pub fn row_clicks(
        &mut self,
        entity: EntityId,
        has_children: bool,
        arrow_clicked: bool,
        row_clicked: bool,
        suppress_click: bool,
    ) -> (click: Option<HierarchyClick>)
        requires
            old(self).wf(),
        ensures
            final(self).wf(),
            final(self).collapsed_spec() == (if arrow_toggles(old(self).focus(), entity, has_children, arrow_clicked) {
                toggled_collapse(old(self).collapsed_spec(), entity)
            } else {
                old(self).collapsed_spec()
            }),
            final(self).order_spec() == old(self).order_spec(),
            final(self).focus() == old(self).focus(),
            click == row_click(old(self).focus(), entity, has_children, arrow_clicked, row_clicked, suppress_click),
    {
        let renamed = match self.renaming {
            Some(r) => r == entity,
            None => false,
        };
        let mut toggled = false;
        if has_children && !renamed && arrow_clicked {
            self.toggle_expanded(entity);
            toggled = true;
        }
        if !renamed && row_clicked && !toggled && !suppress_click {
            Some(HierarchyClick::Entity(entity))
        } else {
            None
        }
    }

    /// Widget id of an entity's inline rename field — shared by the panel's
    /// render pass and the host's focus call so F2 lands in an
    /// already-focused field.
    pub fn rename_widget_id(entity: EntityId) -> (id: String)
        ensures
            id@ == "hierarchy_rename_"@ + decimal(entity.index as nat),
    {
        let mut s = string_of("hierarchy_rename_");
        push_decimal(&mut s, entity.value());
        s
    }

    /// Enter inline-rename mode for `entity`. The field has not drawn yet;
    /// it counts as drawn so the first settle does not read it as gone.
    pub fn begin_rename(&mut self, entity: EntityId)
        requires
            old(self).wf(),
        ensures
            final(self).wf(),
            final(self).focus() == (RenameFocus {
                renaming: Some(entity),
                last_rename: Some(entity),
                field_drawn: true,
                ..old(self).focus()
            }),
            final(self).order_spec() == old(self).order_spec(),
            final(self).collapsed_spec() == old(self).collapsed_spec(),
    {
        self.renaming = Some(entity);
        self.last_rename = Some(entity);
        self.rename_field_drawn = true;
    }

    /// Leave inline-rename mode without committing.
    pub fn cancel_rename(&mut self)
        requires
            old(self).wf(),
        ensures
            final(self).wf(),
            final(self).focus() == (RenameFocus { renaming: None, ..old(self).focus() }),
            final(self).order_spec() == old(self).order_spec(),
            final(self).collapsed_spec() == old(self).collapsed_spec(),
    {
        self.renaming = None;
    }

    /// Row currently in inline-rename mode, if any.
    pub fn renaming(&self) -> (r: Option<EntityId>)
        ensures
            r == self.focus().renaming,
    {
        self.renaming
    }

    /// Focus follows the drawn field: a rename whose field was not drawn
    /// last pass — cancelled from outside, scrolled off the panel, or in a
    /// panel the dock did not render — ends. Returns the entity whose
    /// rename field is to lose the keyboard focus, if that field still
    /// holds it. Run at the start of each pass, or instead of a pass the
    /// panel is not rendered in.
    pub fn settle_rename_focus(&mut self) -> (drop_focus_of: Option<EntityId>)
        requires
            old(self).wf(),
        ensures
            final(self).wf(),
            (final(self).focus(), drop_focus_of) == settle(old(self).focus()),
            final(self).order_spec() == old(self).order_spec(),
            final(self).collapsed_spec() == old(self).collapsed_spec(),
    {
        let drawn_last_frame = self.rename_field_drawn;
        let any_row_drawn = self.rows_drawn > 0;
        self.rename_field_drawn = false;
        self.rows_drawn = 0;
        let last = match self.last_rename {
            Some(last) => last,
            None => return None,
        };
        if self.renaming == Some(last) {
            if drawn_last_frame {
                self.empty_passes = 0;
                return None;
            }
            if !any_row_drawn && self.empty_passes < EMPTY_PASS_GRACE {
                self.empty_passes = self.empty_passes + 1;
                return None;
            }
        }
        self.empty_passes = 0;
        if self.renaming == Some(last) {
            self.renaming = None;
        }
        self.last_rename = None;
        Some(last)
    }
}

impl Default for HierarchyPanel {
    fn default() -> (p: Self)
        ensures
            p.wf(),
            p.collapsed_spec() == Set::<EntityId>::empty(),
            p.order_spec() == Seq::<EntityId>::empty(),
            p.focus().renaming is None,
            p.focus().last_rename is None,
    {
        HierarchyPanel::new()
    }
}

} // verus!
