//! Verified core of the scene editor: selection, shortcut table, dock panel
//! state, view toggles, hierarchy navigation and the other decisions the
//! editor makes, each stated as a contract and proved.

pub mod dock;
pub mod drag_drop;
pub mod editor_input;
pub mod editor_preferences;
pub mod entity;
pub mod field_style;
pub mod field_widgets;
pub mod gizmo;
pub mod grid;
pub mod hierarchy;
pub mod index_set;
pub mod inspector_state;
pub mod menu_actions;
pub mod names;
pub mod overflow_menu;
pub mod picking;
pub mod play_controls;
pub mod read_only_rows;
pub mod script_params;
pub mod selection;
pub mod stored_component;
pub mod text;
pub mod texture_field;
pub mod toolbar;
pub mod view_toggles;
pub mod viewport_input;
pub mod world_snapshot;

pub use dock::PanelId;
pub use editor_input::{EditorAction, EditorBinding, KeyCode, MouseButton};
pub use entity::EntityId;
pub use field_widgets::{cycle_step, CycleRow};
pub use selection::Selection;
