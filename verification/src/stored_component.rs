//! The editor's component registry as the add-component popup and the
//! command layer see it: the removable component kinds, their display
//! names and categories, and addressing by kind or by dynamic name.

use vstd::prelude::*;

use crate::text::{joined, push_joined, push_str, str_eq, string_of};

verus! {

/// Category grouping for the add-component popup.
#[derive(Debug, Clone, Copy, PartialEq, Eq, Structural)]
pub enum ComponentCategory {
    Core,
    Rendering,
    Physics,
    Audio,
    Gameplay,
    Ui,
}

/// All categories in display order.
pub open spec fn all_categories() -> Seq<ComponentCategory> {
    seq![
        ComponentCategory::Core,
        ComponentCategory::Rendering,
        ComponentCategory::Physics,
        ComponentCategory::Audio,
        ComponentCategory::Gameplay,
        ComponentCategory::Ui,
    ]
}

impl ComponentCategory {
    /// All categories in display order.
    pub fn all() -> (all: [ComponentCategory; 6])
        ensures
            all@ == all_categories(),
    {
        let all = [
            ComponentCategory::Core,
            ComponentCategory::Rendering,
            ComponentCategory::Physics,
            ComponentCategory::Audio,
            ComponentCategory::Gameplay,
            ComponentCategory::Ui,
        ];
        assert(all@ =~= all_categories());
        all
    }

    /// Display name for the category header.
    pub fn label(self) -> (label: &'static str)
        ensures
            label@ == (match self {
                ComponentCategory::Core => "Core"@,
                ComponentCategory::Rendering => "Rendering"@,
                ComponentCategory::Physics => "Physics"@,
                ComponentCategory::Audio => "Audio"@,
                ComponentCategory::Gameplay => "Gameplay"@,
                ComponentCategory::Ui => "UI"@,
            }),
    {
        match self {
            ComponentCategory::Core => "Core",
            ComponentCategory::Rendering => "Rendering",
            ComponentCategory::Physics => "Physics",
            ComponentCategory::Audio => "Audio",
            ComponentCategory::Gameplay => "Gameplay",
            ComponentCategory::Ui => "UI",
        }
    }
}

/// The component kinds that can be added to and removed from entities.
#[derive(Debug, Clone, Copy, PartialEq, Eq, Hash, Structural)]
pub enum ComponentKind {
    Camera,
    Sprite,
    SpriteAnimation,
    Tilemap,
    RigidBody,
    Collider,
    AudioSource,
    AudioListener,
    Behavior,
    EntityTag,
    UiLabel,
    UiPanel,
    UiButton,
}

/// All removable component kinds, in registry order.
pub open spec fn all_kinds() -> Seq<ComponentKind> {
    seq![ComponentKind::Camera, ComponentKind::Sprite, ComponentKind::SpriteAnimation, ComponentKind::Tilemap, ComponentKind::RigidBody, ComponentKind::Collider, ComponentKind::AudioSource, ComponentKind::AudioListener, ComponentKind::Behavior, ComponentKind::EntityTag, ComponentKind::UiLabel, ComponentKind::UiPanel, ComponentKind::UiButton]
}

/// A kind's display name (its type name).
pub open spec fn kind_name(kind: ComponentKind) -> Seq<char> {
    match kind {
        ComponentKind::Camera => "Camera"@,
        ComponentKind::Sprite => "Sprite"@,
        ComponentKind::SpriteAnimation => "SpriteAnimation"@,
        ComponentKind::Tilemap => "Tilemap"@,
        ComponentKind::RigidBody => "RigidBody"@,
        ComponentKind::Collider => "Collider"@,
        ComponentKind::AudioSource => "AudioSource"@,
        ComponentKind::AudioListener => "AudioListener"@,
        ComponentKind::Behavior => "Behavior"@,
        ComponentKind::EntityTag => "EntityTag"@,
        ComponentKind::UiLabel => "UiLabel"@,
        ComponentKind::UiPanel => "UiPanel"@,
        ComponentKind::UiButton => "UiButton"@,
    }
}

/// A kind's add-component category.
pub open spec fn kind_category(kind: ComponentKind) -> ComponentCategory {
    match kind {
        ComponentKind::Camera => ComponentCategory::Core,
        ComponentKind::Sprite => ComponentCategory::Rendering,
        ComponentKind::SpriteAnimation => ComponentCategory::Rendering,
        ComponentKind::Tilemap => ComponentCategory::Rendering,
        ComponentKind::RigidBody => ComponentCategory::Physics,
        ComponentKind::Collider => ComponentCategory::Physics,
        ComponentKind::AudioSource => ComponentCategory::Audio,
        ComponentKind::AudioListener => ComponentCategory::Audio,
        ComponentKind::Behavior => ComponentCategory::Gameplay,
        ComponentKind::EntityTag => ComponentCategory::Gameplay,
        ComponentKind::UiLabel => ComponentCategory::Ui,
        ComponentKind::UiPanel => ComponentCategory::Ui,
        ComponentKind::UiButton => ComponentCategory::Ui,
    }
}

impl ComponentKind {
    /// All removable component kinds, in registry order.
    pub fn all() -> (kinds: Vec<ComponentKind>)
        ensures
            kinds@ == all_kinds(),
    {
        let mut kinds: Vec<ComponentKind> = Vec::new();
    kinds.push(ComponentKind::Camera);
    kinds.push(ComponentKind::Sprite);
    kinds.push(ComponentKind::SpriteAnimation);
    kinds.push(ComponentKind::Tilemap);
    kinds.push(ComponentKind::RigidBody);
    kinds.push(ComponentKind::Collider);
    kinds.push(ComponentKind::AudioSource);
    kinds.push(ComponentKind::AudioListener);
    kinds.push(ComponentKind::Behavior);
    kinds.push(ComponentKind::EntityTag);
    kinds.push(ComponentKind::UiLabel);
    kinds.push(ComponentKind::UiPanel);
    kinds.push(ComponentKind::UiButton);
        assert(kinds@ =~= all_kinds());
        kinds
    }

    /// Human-readable display name (matches the type name).
    pub fn display_name(self) -> (name: &'static str)
        ensures
            name@ == kind_name(self),
    {
        match self {
            ComponentKind::Camera => "Camera",
            ComponentKind::Sprite => "Sprite",
            ComponentKind::SpriteAnimation => "SpriteAnimation",
            ComponentKind::Tilemap => "Tilemap",
            ComponentKind::RigidBody => "RigidBody",
            ComponentKind::Collider => "Collider",
            ComponentKind::AudioSource => "AudioSource",
            ComponentKind::AudioListener => "AudioListener",
            ComponentKind::Behavior => "Behavior",
            ComponentKind::EntityTag => "EntityTag",
            ComponentKind::UiLabel => "UiLabel",
            ComponentKind::UiPanel => "UiPanel",
            ComponentKind::UiButton => "UiButton",
        }
    }

    /// Category for the add-component popup.
    pub fn category(self) -> (category: ComponentCategory)
        ensures
            category == kind_category(self),
    {
        match self {
            ComponentKind::Camera => ComponentCategory::Core,
            ComponentKind::Sprite => ComponentCategory::Rendering,
            ComponentKind::SpriteAnimation => ComponentCategory::Rendering,
            ComponentKind::Tilemap => ComponentCategory::Rendering,
            ComponentKind::RigidBody => ComponentCategory::Physics,
            ComponentKind::Collider => ComponentCategory::Physics,
            ComponentKind::AudioSource => ComponentCategory::Audio,
            ComponentKind::AudioListener => ComponentCategory::Audio,
            ComponentKind::Behavior => ComponentCategory::Gameplay,
            ComponentKind::EntityTag => ComponentCategory::Gameplay,
            ComponentKind::UiLabel => ComponentCategory::Ui,
            ComponentKind::UiPanel => ComponentCategory::Ui,
            ComponentKind::UiButton => ComponentCategory::Ui,
        }
    }
}

/// The kinds of `kinds` in category `c`, in order.
pub open spec fn kinds_in(kinds: Seq<ComponentKind>, c: ComponentCategory) -> Seq<ComponentKind>
    decreases kinds.len(),
{
    if kinds.len() == 0 {
        Seq::empty()
    } else {
        let rest = kinds_in(kinds.drop_last(), c);
        if kind_category(kinds.last()) == c {
            rest.push(kinds.last())
        } else {
            rest
        }
    }
}

/// Each category of `cats` with its kinds, in order, leaving out the
/// categories that have none.
pub open spec fn category_groups(cats: Seq<ComponentCategory>) -> Seq<(ComponentCategory, Seq<ComponentKind>)>
    decreases cats.len(),
{
    if cats.len() == 0 {
        Seq::empty()
    } else {
        let rest = category_groups(cats.drop_last());
        let kinds = kinds_in(all_kinds(), cats.last());
        if kinds.len() == 0 {
            rest
        } else {
            rest.push((cats.last(), kinds))
        }
    }
}

/// The kinds of `all_kinds()` in `c`.
fn kinds_of_category(all: &Vec<ComponentKind>, c: ComponentCategory) -> (kinds: Vec<ComponentKind>)
    requires
        all@ == all_kinds(),
    ensures
        kinds@ == kinds_in(all_kinds(), c),
{
    let mut kinds: Vec<ComponentKind> = Vec::new();
    let mut i: usize = 0;
    while i < all.len()
        invariant
            i <= all@.len(),
            all@ == all_kinds(),
            kinds@ == kinds_in(all@.take(i as int), c),
        decreases all@.len() - i,
    {
        let k = all[i];
        proof {
            assert(all@.take(i + 1).drop_last() =~= all@.take(i as int));
            assert(all@.take(i + 1).last() == k);
        }
        if k.category() == c {
            kinds.push(k);
        }
        i = i + 1;
    }
    assert(all@.take(all@.len() as int) =~= all@);
    kinds
}

/// All component kinds grouped by category, in display order; categories
/// with no components are omitted.
pub fn categorized_components() -> (groups: Vec<(ComponentCategory, Vec<ComponentKind>)>)
    ensures
        groups@.len() == category_groups(all_categories()).len(),
        forall|i: int|
            0 <= i < groups@.len() ==> (#[trigger] groups@[i]).0 == category_groups(
                all_categories(),
            )[i].0 && groups@[i].1@ == category_groups(all_categories())[i].1,
{
    let cats = ComponentCategory::all();
    let all = ComponentKind::all();
    let mut groups: Vec<(ComponentCategory, Vec<ComponentKind>)> = Vec::new();
    let mut i: usize = 0;
    while i < 6
        invariant
            i <= 6,
            cats@ == all_categories(),
            all@ == all_kinds(),
            groups@.len() == category_groups(cats@.take(i as int)).len(),
            forall|j: int|
                0 <= j < groups@.len() ==> (#[trigger] groups@[j]).0 == category_groups(
                    cats@.take(i as int),
                )[j].0 && groups@[j].1@ == category_groups(cats@.take(i as int))[j].1,
        decreases 6 - i,
    {
        let c = cats[i];
        proof {
            assert(cats@.take(i + 1).drop_last() =~= cats@.take(i as int));
            assert(cats@.take(i + 1).last() == c);
        }
        let kinds = kinds_of_category(&all, c);
        if kinds.len() > 0 {
            groups.push((c, kinds));
        }
        i = i + 1;
    }
    assert(cats@.take(6) =~= cats@);
    groups
}

/// A component addressed either through the typed registry or by
/// dynamic-tier name.
#[derive(Debug, Clone, PartialEq, Eq)]
pub enum ComponentRef {
    Typed(ComponentKind),
    Dynamic(String),
}

impl ComponentRef {
    /// The component's display name: a kind's type name, or the dynamic
    /// name itself.
    pub fn display_name(&self) -> (name: &str)
        ensures
            name@ == (match self {
                ComponentRef::Typed(kind) => kind_name(*kind),
                ComponentRef::Dynamic(n) => n@,
            }),
    {
        match self {
            ComponentRef::Typed(kind) => kind.display_name(),
            ComponentRef::Dynamic(name) => name.as_str(),
        }
    }

    /// Removing a RigidBody takes its Collider with it (a collider without
    /// a body is meaningless to the physics system). Nothing else
    /// cascades; a dynamic component never does.
    pub fn cascade(&self) -> (follows: Option<ComponentRef>)
        ensures
            follows == (if *self == ComponentRef::Typed(ComponentKind::RigidBody) {
                Some(ComponentRef::Typed(ComponentKind::Collider))
            } else {
                None
            }),
    {
        match self {
            ComponentRef::Typed(ComponentKind::RigidBody) => Some(
                ComponentRef::Typed(ComponentKind::Collider),
            ),
            _ => None,
        }
    }
}

/// Whether `name` is a dynamic-tier component: one of the registered
/// dynamic names (registered, and not covered by the typed registry).
pub fn is_dynamic_component(name: &str, dynamic_names: &[String]) -> (dynamic: bool)
    ensures
        dynamic == exists|i: int| 0 <= i < dynamic_names@.len() && (#[trigger] dynamic_names@[i])@ == name@,
{
    let mut i: usize = 0;
    while i < dynamic_names.len()
        invariant
            i <= dynamic_names@.len(),
            forall|j: int| 0 <= j < i ==> (#[trigger] dynamic_names@[j])@ != name@,
        decreases dynamic_names@.len() - i,
    {
        if str_eq(dynamic_names[i].as_str(), name) {
            return true;
        }
        i = i + 1;
    }
    false
}

/// The kinds of `all_kinds()` not in `present`, in registry order.
pub open spec fn absent_kinds(kinds: Seq<ComponentKind>, present: Seq<ComponentKind>) -> Seq<ComponentKind>
    decreases kinds.len(),
{
    if kinds.len() == 0 {
        Seq::empty()
    } else {
        let rest = absent_kinds(kinds.drop_last(), present);
        if present.contains(kinds.last()) {
            rest
        } else {
            rest.push(kinds.last())
        }
    }
}

/// The component kinds an entity does not carry — the candidates for the
/// add-component popup — in registry order, given the kinds it carries.
pub fn available_components(present: &[ComponentKind]) -> (available: Vec<ComponentKind>)
    ensures
        available@ == absent_kinds(all_kinds(), present@),
{
    let all = ComponentKind::all();
    let mut available: Vec<ComponentKind> = Vec::new();
    let mut i: usize = 0;
    while i < all.len()
        invariant
            i <= all@.len(),
            all@ == all_kinds(),
            available@ == absent_kinds(all@.take(i as int), present@),
        decreases all@.len() - i,
    {
        let k = all[i];
        proof {
            assert(all@.take(i + 1).drop_last() =~= all@.take(i as int));
            assert(all@.take(i + 1).last() == k);
        }
        let mut carried = false;
        let mut j: usize = 0;
        while j < present.len()
            invariant
                j <= present@.len(),
                carried == exists|q: int| 0 <= q < j && present@[q] == k,
            decreases present@.len() - j,
        {
            if present[j] == k {
                carried = true;
            }
            j = j + 1;
        }
        if !carried {
            available.push(k);
        }
        i = i + 1;
    }
    assert(all@.take(all@.len() as int) =~= all@);
    available
}

/// The "unknown component" message: the name asked for, and every name
/// that can be set.
pub fn unknown_component_error(name: &str, known: &[String]) -> (message: String)
    ensures
        message@ == "unknown component \""@ + name@ + "\" — known: "@ + joined(
            known@.map_values(|s: String| s@),
            ", "@,
        ),
{
    let mut message = string_of("unknown component \"");
    push_str(&mut message, name);
    push_str(&mut message, "\" — known: ");
    push_joined(&mut message, known, ", ");
    message
}

} // verus!
