//! Play / Pause / Stop controls: which buttons a play state shows and what
//! each one asks for.

use vstd::prelude::*;

verus! {

/// The editor's play state.
#[derive(Debug, Clone, Copy, PartialEq, Eq, Hash, Structural)]
pub enum EditorPlayState {
    /// Authoring the scene; no game running.
    Editing,
    /// A play session is running.
    Playing,
    /// A play session is paused.
    Paused,
}

/// Action returned when the user clicks a play control button.
#[derive(Debug, Clone, Copy, PartialEq, Eq, Structural)]
pub enum PlayControlAction {
    /// Start or resume the game simulation.
    Play,
    /// Pause the running game simulation.
    Pause,
    /// Stop the game and restore the pre-play snapshot.
    Stop,
    /// Toggle whether the viewport follows the game camera.
    ToggleCameraFollow,
}

/// Whether a state shows the Stop button (and the Follow toggle after it):
/// every state but Editing.
pub fn has_stop_button(state: EditorPlayState) -> (shows: bool)
    ensures
        shows == (state != EditorPlayState::Editing),
{
    !matches!(state, EditorPlayState::Editing)
}

/// One play control button: its label and the action its click asks for.
#[derive(Debug, Clone, Copy)]
pub struct PlayControlButton {
    pub label: &'static str,
    pub action: PlayControlAction,
}

/// The buttons of a state, left to right, as labels and actions.
pub open spec fn control_buttons_spec(state: EditorPlayState) -> Seq<(Seq<char>, PlayControlAction)> {
    match state {
        EditorPlayState::Editing => seq![("Play"@, PlayControlAction::Play)],
        EditorPlayState::Playing => seq![
            ("Pause"@, PlayControlAction::Pause),
            ("Stop"@, PlayControlAction::Stop),
            ("Follow"@, PlayControlAction::ToggleCameraFollow),
        ],
        EditorPlayState::Paused => seq![
            ("Resume"@, PlayControlAction::Play),
            ("Stop"@, PlayControlAction::Stop),
            ("Follow"@, PlayControlAction::ToggleCameraFollow),
        ],
    }
}

/// The buttons a state shows, left to right: Editing shows Play; Playing
/// shows Pause, Stop and Follow; Paused shows Resume (which plays), Stop
/// and Follow.
pub fn control_buttons(state: EditorPlayState) -> (buttons: Vec<PlayControlButton>)
    ensures
        buttons@.len() == control_buttons_spec(state).len(),
        forall|i: int|
            0 <= i < buttons@.len() ==> (#[trigger] buttons@[i]).label@ == control_buttons_spec(
                state,
            )[i].0 && buttons@[i].action == control_buttons_spec(state)[i].1,
{
    let mut buttons: Vec<PlayControlButton> = Vec::new();
    match state {
        EditorPlayState::Editing => {
            buttons.push(PlayControlButton { label: "Play", action: PlayControlAction::Play });
        },
        EditorPlayState::Playing => {
            buttons.push(PlayControlButton { label: "Pause", action: PlayControlAction::Pause });
        },
        EditorPlayState::Paused => {
            buttons.push(PlayControlButton { label: "Resume", action: PlayControlAction::Play });
        },
    }
    if has_stop_button(state) {
        buttons.push(PlayControlButton { label: "Stop", action: PlayControlAction::Stop });
        buttons.push(
            PlayControlButton { label: "Follow", action: PlayControlAction::ToggleCameraFollow },
        );
    }
    buttons
}

} // verus!
