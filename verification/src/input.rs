use vstd::prelude::*;

use crate::states::GameState;

verus! {

/// The keys that the game reads in one frame.
#[derive(Clone, Copy, Debug, PartialEq, Eq, Structural)]
pub struct Keys {
    /// Escape went down this frame.
    pub escape_just_pressed: bool,
    /// E went down this frame.
    pub e_just_pressed: bool,
    /// Space went down this frame.
    pub space_just_pressed: bool,
    /// W is held.
    pub w: bool,
    /// S is held.
    pub s: bool,
    /// A is held.
    pub a: bool,
    /// D is held.
    pub d: bool,
    /// Left shift is held.
    pub shift: bool,
    /// Space is held.
    pub space: bool,
}

/// Where the player wants to move: a step along each axis of the plane (-1, 0 or 1), whether
/// to run, and whether to jump.
#[derive(Clone, Copy, Debug, PartialEq, Eq, Structural)]
pub struct MovementIntent {
    pub dx: i8,
    pub dz: i8,
    pub sprint: bool,
    pub jump: bool,
}

/// What the input of one frame does.
#[derive(Clone, Copy, Debug, PartialEq, Eq, Structural)]
pub enum InputResponse {
    /// Escape: the game goes to `next`, and `remembered` is the state to come back to.
    TogglePause { next: GameState, remembered: GameState },
    /// The player walks and looks around, and may interact with what is within reach.
    Play { interact: bool, movement: MovementIntent },
    /// A dialog is open; mouse motion is dropped, and the dialog may go on.
    Dialog { continue_dialog: bool },
    /// A lock is being picked; mouse motion is dropped.
    LockPicking { move_left: bool, move_right: bool, rotate: bool },
    /// Every key and mouse motion is dropped.
    Ignore,
}

/// The state Escape leads to from `state`, and the state remembered afterwards: out of the
/// pause it goes back to the remembered state; anywhere else it pauses and remembers where.
pub open spec fn escape_transition(state: GameState, remembered: GameState) -> (GameState, GameState) {
    if state == GameState::Paused {
        (remembered, remembered)
    } else {
        (GameState::Paused, state)
    }
}

/// One step along an axis: toward the positive key, the negative key, or none.
pub open spec fn axis(negative: bool, positive: bool) -> int {
    (if positive { 1int } else { 0int }) - (if negative { 1int } else { 0int })
}

/// The movement that the held keys ask for.
pub open spec fn movement_of(keys: Keys) -> MovementIntent {
    MovementIntent {
        dx: axis(keys.a, keys.d) as i8,
        dz: axis(keys.w, keys.s) as i8,
        sprint: keys.shift,
        jump: keys.space,
    }
}

/// What the input of a frame does in a given state.
pub open spec fn input_response(state: GameState, remembered: GameState, keys: Keys) -> InputResponse {
    if keys.escape_just_pressed {
        InputResponse::TogglePause {
            next: escape_transition(state, remembered).0,
            remembered: escape_transition(state, remembered).1,
        }
    } else {
        match state {
            GameState::Playing => InputResponse::Play {
                interact: keys.e_just_pressed,
                movement: movement_of(keys),
            },
            GameState::InDialog => InputResponse::Dialog { continue_dialog: keys.space_just_pressed },
            GameState::InLockPicking => InputResponse::LockPicking {
                move_left: keys.a,
                move_right: keys.d,
                rotate: keys.space_just_pressed,
            },
            _ => InputResponse::Ignore,
        }
    }
}

fn axis_step(negative: bool, positive: bool) -> (r: i8)
    ensures
        r as int == axis(negative, positive),
{
    let mut r: i8 = 0;
    if negative {
        r = r - 1;
    }
    if positive {
        r = r + 1;
    }
    r
}

/// Reads the keys of a frame in the given game state; `remembered` is the state the game left
/// when it was last paused.
pub fn handle_input(state: GameState, remembered: GameState, keys: &Keys) -> (r: InputResponse)
    ensures
        r == input_response(state, remembered, *keys),
        !keys.escape_just_pressed && state == GameState::InDialog ==> r == (InputResponse::Dialog {
            continue_dialog: keys.space_just_pressed,
        }),
{
    if keys.escape_just_pressed {
        if state.is_paused() {
            return InputResponse::TogglePause { next: remembered, remembered };
        } else {
            return InputResponse::TogglePause { next: GameState::Paused, remembered: state };
        }
    }
    match state {
        GameState::Playing => {
            let movement = MovementIntent {
                dx: axis_step(keys.a, keys.d),
                dz: axis_step(keys.w, keys.s),
                sprint: keys.shift,
                jump: keys.space,
            };
            InputResponse::Play { interact: keys.e_just_pressed, movement }
        },
        GameState::InDialog => InputResponse::Dialog { continue_dialog: keys.space_just_pressed },
        GameState::InLockPicking => InputResponse::LockPicking {
            move_left: keys.a,
            move_right: keys.d,
            rotate: keys.space_just_pressed,
        },
        _ => InputResponse::Ignore,
    }
}

/// Pausing and unpausing with Escape brings the game back to the state it was paused in,
/// whatever state that was (playing, in a dialog, picking a lock, ...).
pub proof fn lemma_escape_twice_restores(state: GameState, remembered: GameState)
    requires
        state != GameState::Paused,
    ensures
        escape_transition(state, remembered).0 == GameState::Paused,
        escape_transition(
            escape_transition(state, remembered).0,
            escape_transition(state, remembered).1,
        ).0 == state,
{
}

/// Opposite keys held together cancel out, and a step is never longer than one.
pub proof fn lemma_movement_steps_bounded(keys: Keys)
    ensures
        -1 <= axis(keys.a, keys.d) <= 1,
        -1 <= axis(keys.w, keys.s) <= 1,
        keys.a && keys.d ==> axis(keys.a, keys.d) == 0,
        keys.w && keys.s ==> axis(keys.w, keys.s) == 0,
{
}


/// In a dialog only Space going down this frame continues it: keys held down, Space included,
/// never change the response, so holding Space does not skip line after line.
pub proof fn lemma_dialog_continues_only_on_press(remembered: GameState, keys: Keys, held: Keys)
    requires
        !keys.escape_just_pressed,
        held.escape_just_pressed == keys.escape_just_pressed,
        held.e_just_pressed == keys.e_just_pressed,
        held.space_just_pressed == keys.space_just_pressed,
    ensures
        input_response(GameState::InDialog, remembered, keys) == input_response(
            GameState::InDialog,
            remembered,
            held,
        ),
        input_response(GameState::InDialog, remembered, keys) matches InputResponse::Dialog {
            continue_dialog,
        } && continue_dialog == keys.space_just_pressed,
{
}

} // verus!
