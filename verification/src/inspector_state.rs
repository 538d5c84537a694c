//! Inspector view state that outlives a frame: which component sections
//! are collapsed, which Advanced disclosures are open, and which colour row
//! owns the colour editor.
//!
//! None of it is scene data, so only the collapsed set is persisted, in the
//! editor preferences. The colour editor remembers where its row last drew
//! its swatch (`A`) and which colour it showed (`C`); both are the host's
//! floating-point geometry and colour types, carried through unread.

use vstd::prelude::*;

use crate::entity::EntityId;
use crate::names::{name_views, SortedNames};
use crate::text::str_eq;

verus! {

/// The colour row the colour editor is open on: which entity, which
/// component by registry type name, and which field of it.
///
/// The component is named, not indexed: a walk-time index moves when an
/// undo removes a component above it.
#[derive(Debug, Clone, PartialEq, Eq)]
pub struct ColorEditorTarget {
    pub entity: EntityId,
    pub component: String,
    pub field_index: usize,
}

/// An open colour editor: its row, where that row last drew its swatch and
/// what it last showed, whether the row rendered since the last pass, and
/// the edit the popup made that the row has not taken yet.
#[derive(Debug, Clone)]
pub struct OpenColorEditor<A, C> {
    pub target: ColorEditorTarget,
    pub anchor: A,
    pub value: C,
    pub seen: bool,
    pub pending: Option<C>,
    /// The popup asked to close on the same frame it produced an edit; the
    /// row must take that edit first, so the close waits for the next pass.
    pub closing: bool,
}

/// Whether `target` is the row of `entity`'s block of `component`.
pub open spec fn targets(target: ColorEditorTarget, entity: EntityId, component: Seq<char>) -> bool {
    target.entity == entity && target.component@ == component
}

/// The row of `entity`'s `component` taking the popup's edit: the owning
/// row gets the pending edit and the editor keeps none; any other row gets
/// nothing and changes nothing.
pub open spec fn take_edit<A, C>(
    editor: Option<OpenColorEditor<A, C>>,
    entity: EntityId,
    component: Seq<char>,
) -> (Option<OpenColorEditor<A, C>>, Option<C>) {
    match editor {
        Some(open) => if targets(open.target, entity, component) {
            (Some(OpenColorEditor { pending: None, ..open }), open.pending)
        } else {
            (editor, None)
        },
        None => (None, None),
    }
}

/// An edit is written once: the second row walk asking for it gets
/// nothing.
pub proof fn lemma_edit_taken_once<A, C>(editor: Option<OpenColorEditor<A, C>>, entity: EntityId, component: Seq<char>)
    ensures
        take_edit(take_edit(editor, entity, component).0, entity, component).1 is None,
{
}

/// Per-inspector view state, held as one field on the editor context.
#[derive(Debug)]
pub struct InspectorState<A, C> {
    /// Registry type names whose section is collapsed to its header.
    collapsed: SortedNames,
    /// Registry type names whose Advanced disclosure is open.
    advanced_open: SortedNames,
    color_editor: Option<OpenColorEditor<A, C>>,
}

impl<A: Copy, C: Copy> InspectorState<A, C> {
    /// Both name sets are well formed.
    pub closed spec fn wf(&self) -> bool {
        self.collapsed.wf() && self.advanced_open.wf()
    }

    /// The collapsed type names, ascending.
    pub closed spec fn collapsed_spec(&self) -> Seq<Seq<char>> {
        self.collapsed@
    }

    /// The type names whose Advanced disclosure is open.
    pub closed spec fn advanced_spec(&self) -> Set<Seq<char>> {
        self.advanced_open.contents()
    }

    /// The open colour editor.
    pub closed spec fn editor_spec(&self) -> Option<OpenColorEditor<A, C>> {
        self.color_editor
    }

    /// The collapsed type names form an ascending list without repeats.
    pub proof fn lemma_collapsed_sorted(&self)
        requires
            self.wf(),
        ensures
            crate::names::strictly_sorted(self.collapsed_spec()),
    {
    }

    /// Nothing collapsed, nothing open.
    pub fn new() -> (s: Self)
        ensures
            s.wf(),
            s.collapsed_spec() == Seq::<Seq<char>>::empty(),
            s.advanced_spec() == Set::<Seq<char>>::empty(),
            s.editor_spec() is None,
    {
        let s = InspectorState {
            collapsed: SortedNames::new(),
            advanced_open: SortedNames::new(),
            color_editor: None,
        };
        assert(s.advanced_open.contents() =~= Set::<Seq<char>>::empty());
        s
    }

    /// Whether the `section` component's section is collapsed to its header row.
    pub fn is_collapsed(&self, section: &str) -> (collapsed: bool)
        requires
            self.wf(),
        ensures
            collapsed == self.collapsed_spec().contains(section@),
    {
        self.collapsed.contains(section)
    }

    /// Collapse an expanded section, expand a collapsed one.
    pub fn toggle_collapsed(&mut self, section: &str)
        requires
            old(self).wf(),
        ensures
            final(self).wf(),
            final(self).collapsed_spec().to_set() == toggled(
                old(self).collapsed_spec().to_set(),
                section@,
            ),
            final(self).advanced_spec() == old(self).advanced_spec(),
            final(self).editor_spec() == old(self).editor_spec(),
    {
        self.collapsed.toggle(section);
    }

    /// The collapsed type names, sorted — what the preferences persist.
    pub fn collapsed_names(&self) -> (names: Vec<String>)
        requires
            self.wf(),
        ensures
            name_views(names@) == self.collapsed_spec(),
    {
        self.collapsed.to_vec()
    }

    /// Adopt a persisted collapsed set. Names the registry no longer knows
    /// are kept rather than dropped: a component removed from a scene must
    /// still open collapsed when it comes back.
    pub fn set_collapsed_names(&mut self, names: Vec<String>)
        requires
            old(self).wf(),
        ensures
            final(self).wf(),
            final(self).collapsed_spec().to_set() == name_views(names@).to_set(),
            final(self).advanced_spec() == old(self).advanced_spec(),
            final(self).editor_spec() == old(self).editor_spec(),
    {
        self.collapsed = SortedNames::from_names(names.as_slice());
    }

    /// Whether the `section` component's Advanced disclosure is open.
    pub fn is_advanced_open(&self, section: &str) -> (open: bool)
        requires
            self.wf(),
        ensures
            open == self.advanced_spec().contains(section@),
    {
        self.advanced_open.contains(section)
    }

    /// Open a closed Advanced disclosure, close an open one.
    pub fn toggle_advanced(&mut self, section: &str)
        requires
            old(self).wf(),
        ensures
            final(self).wf(),
            final(self).advanced_spec() == toggled(old(self).advanced_spec(), section@),
            final(self).collapsed_spec() == old(self).collapsed_spec(),
            final(self).editor_spec() == old(self).editor_spec(),
    {
        self.advanced_open.toggle(section);
    }

    /// The colour row the editor is open on, if any.
    pub fn color_editor(&self) -> (target: Option<&ColorEditorTarget>)
        ensures
            match self.editor_spec() {
                Some(open) => target == Some(&open.target),
                None => target is None,
            },
    {
        match &self.color_editor {
            Some(open) => Some(&open.target),
            None => None,
        }
    }

    /// Open the colour editor on one row, replacing any open one. The row
    /// has just drawn, so it counts as seen: the popup pass runs before the
    /// panels and would otherwise close it before it ever appeared.
    pub fn open_color_editor(&mut self, target: ColorEditorTarget, anchor: A, value: C)
        requires
            old(self).wf(),
        ensures
            final(self).wf(),
            final(self).editor_spec() == Some(
                OpenColorEditor { target, anchor, value, seen: true, pending: None, closing: false },
            ),
            final(self).collapsed_spec() == old(self).collapsed_spec(),
            final(self).advanced_spec() == old(self).advanced_spec(),
    {
        self.color_editor = Some(
            OpenColorEditor { target, anchor, value, seen: true, pending: None, closing: false },
        );
    }

    /// The colour row reporting that it rendered, with where its swatch is
    /// and what it shows.
    pub fn note_color_row(&mut self, anchor: A, value: C)
        requires
            old(self).wf(),
        ensures
            final(self).wf(),
            final(self).editor_spec() == (match old(self).editor_spec() {
                Some(open) => Some(OpenColorEditor { anchor, value, seen: true, ..open }),
                None => None,
            }),
            final(self).collapsed_spec() == old(self).collapsed_spec(),
            final(self).advanced_spec() == old(self).advanced_spec(),
    {
        if let Some(open) = &mut self.color_editor {
            open.anchor = anchor;
            open.value = value;
            open.seen = true;
        }
    }

    /// Where to draw the popup and what colour to show, for the pass.
    pub fn color_editor_frame(&self) -> (frame: Option<(A, C)>)
        ensures
            frame == (match self.editor_spec() {
                Some(open) => Some((open.anchor, open.value)),
                None => None,
            }),
    {
        match &self.color_editor {
            Some(open) => Some((open.anchor, open.value)),
            None => None,
        }
    }

    /// Whether the row that owns the editor rendered since the last pass. A
    /// row that stopped rendering takes the editor with it.
    pub fn color_editor_row_was_seen(&self) -> (seen: bool)
        ensures
            seen == (match self.editor_spec() {
                Some(open) => open.seen,
                None => false,
            }),
    {
        match &self.color_editor {
            Some(open) => open.seen,
            None => false,
        }
    }

    /// Clear the seen mark so the coming frame's walk has to set it again.
    pub fn clear_color_editor_seen(&mut self)
        requires
            old(self).wf(),
        ensures
            final(self).wf(),
            final(self).editor_spec() == (match old(self).editor_spec() {
                Some(open) => Some(OpenColorEditor { seen: false, ..open }),
                None => None,
            }),
            final(self).collapsed_spec() == old(self).collapsed_spec(),
            final(self).advanced_spec() == old(self).advanced_spec(),
    {
        if let Some(open) = &mut self.color_editor {
            open.seen = false;
        }
    }

    /// Record the colour the popup edited to, for the row to write.
    pub fn set_color_edit(&mut self, value: C)
        requires
            old(self).wf(),
        ensures
            final(self).wf(),
            final(self).editor_spec() == (match old(self).editor_spec() {
                Some(open) => Some(OpenColorEditor { pending: Some(value), value, ..open }),
                None => None,
            }),
            final(self).collapsed_spec() == old(self).collapsed_spec(),
            final(self).advanced_spec() == old(self).advanced_spec(),
    {
        if let Some(open) = &mut self.color_editor {
            open.pending = Some(value);
            open.value = value;
        }
    }

    /// Take the popup's edit, if this is the row that owns the editor. An
    /// edit is handed out once.
    pub fn take_color_edit_for(&mut self, entity: EntityId, component: &str) -> (edit: Option<C>)
        requires
            old(self).wf(),
        ensures
            final(self).wf(),
            (final(self).editor_spec(), edit) == take_edit(old(self).editor_spec(), entity, component@),
            final(self).collapsed_spec() == old(self).collapsed_spec(),
            final(self).advanced_spec() == old(self).advanced_spec(),
    {
        match &mut self.color_editor {
            Some(open) => {
                if open.target.entity == entity && str_eq(open.target.component.as_str(), component) {
                    let edit = open.pending;
                    open.pending = None;
                    edit
                } else {
                    None
                }
            },
            None => None,
        }
    }

    /// The field index of the editor's row, when it is open on this
    /// entity's block of `component`.
    pub fn color_editor_field(&self, entity: EntityId, component: &str) -> (field: Option<usize>)
        ensures
            field == (match self.editor_spec() {
                Some(open) => if targets(open.target, entity, component@) {
                    Some(open.target.field_index)
                } else {
                    None
                },
                None => None,
            }),
    {
        match &self.color_editor {
            Some(open) => {
                if open.target.entity == entity && str_eq(open.target.component.as_str(), component) {
                    Some(open.target.field_index)
                } else {
                    None
                }
            },
            None => None,
        }
    }

    /// Close the colour editor; `true` when one was open. Every path that
    /// invalidates the target comes through here.
    pub fn close_color_editor(&mut self) -> (was_open: bool)
        requires
            old(self).wf(),
        ensures
            final(self).wf(),
            was_open == old(self).editor_spec() is Some,
            final(self).editor_spec() is None,
            final(self).collapsed_spec() == old(self).collapsed_spec(),
            final(self).advanced_spec() == old(self).advanced_spec(),
    {
        let was_open = self.color_editor.is_some();
        self.color_editor = None;
        was_open
    }

    /// Close once the row has had a walk to take the pending edit: a click
    /// outside the popup commits a focused field on that same press, and
    /// closing at once would drop that commit.
    pub fn close_color_editor_after_edit(&mut self)
        requires
            old(self).wf(),
        ensures
            final(self).wf(),
            final(self).editor_spec() == (match old(self).editor_spec() {
                Some(open) => Some(OpenColorEditor { closing: true, ..open }),
                None => None,
            }),
            final(self).collapsed_spec() == old(self).collapsed_spec(),
            final(self).advanced_spec() == old(self).advanced_spec(),
    {
        if let Some(open) = &mut self.color_editor {
            open.closing = true;
        }
    }

    /// Whether a close is waiting on the row's next walk.
    pub fn color_editor_closing(&self) -> (closing: bool)
        ensures
            closing == (match self.editor_spec() {
                Some(open) => open.closing,
                None => false,
            }),
    {
        match &self.color_editor {
            Some(open) => open.closing,
            None => false,
        }
    }
}

impl<A: Copy, C: Copy> Default for InspectorState<A, C> {
    fn default() -> (s: Self)
        ensures
            s.wf(),
            s.collapsed_spec() == Seq::<Seq<char>>::empty(),
            s.advanced_spec() == Set::<Seq<char>>::empty(),
            s.editor_spec() is None,
    {
        InspectorState::new()
    }
}

/// `names` with `name` removed when present and added when absent.
pub open spec fn toggled(names: Set<Seq<char>>, name: Seq<char>) -> Set<Seq<char>> {
    if names.contains(name) {
        names.remove(name)
    } else {
        names.insert(name)
    }
}

/// Toggling a section (or a disclosure) twice leaves the set as it was.
pub proof fn lemma_toggle_twice_restores(names: Set<Seq<char>>, name: Seq<char>)
    ensures
        toggled(toggled(names, name), name) == names,
{
    if names.contains(name) {
        assert(names.remove(name).insert(name) =~= names);
    } else {
        assert(names.insert(name).remove(name) =~= names);
    }
}

} // verus!
