use haunted::dialog::{DialogBoxEvent, DialogBoxMessage, DialogBoxMessages, GameCharacter};
use haunted::input::{handle_input, InputResponse, Keys, MovementIntent};
use haunted::states::GameState;

fn keys() -> Keys {
    Keys {
        escape_just_pressed: false,
        e_just_pressed: false,
        space_just_pressed: false,
        w: false,
        s: false,
        a: false,
        d: false,
        shift: false,
        space: false,
    }
}

#[test]
fn player_name_and_messages() {
    assert_eq!(GameCharacter::Player.name(), "You");
    let m = DialogBoxMessage::player("Hi");
    assert_eq!(m.character, "You");
    assert_eq!(m.content, "Hi");
    let m = DialogBoxMessage::new("Neighbor on 301", "Ok.");
    assert_eq!(m.character, "Neighbor on 301");
    assert_eq!(m.content, "Ok.");
}

#[test]
fn events_keep_order() {
    assert!(DialogBoxEvent::default().messages.is_empty());
    let e = DialogBoxEvent::with_message(DialogBoxMessage::player("one"));
    assert_eq!(e.messages.len(), 1);
    let e = DialogBoxEvent::with_messages(vec![DialogBoxMessage::player("one"), DialogBoxMessage::player("two")]);
    assert_eq!(e.messages[0].content, "one");
    assert_eq!(e.messages[1].content, "two");
}

#[test]
fn dialog_shows_lines_in_order_then_closes() {
    let e = DialogBoxEvent::with_messages(vec![
        DialogBoxMessage::player("one"),
        DialogBoxMessage::player("two"),
        DialogBoxMessage::player("three"),
    ]);
    let mut q = DialogBoxMessages::from_event(e);
    assert_eq!(q.current().unwrap().content, "one");
    assert!(!q.advance());
    assert_eq!(q.current().unwrap().content, "two");
    assert!(!q.advance_on_button(false));
    assert_eq!(q.current().unwrap().content, "two");
    assert!(!q.advance_on_button(true));
    assert_eq!(q.current().unwrap().content, "three");
    assert!(q.advance());
    assert!(q.current().is_none());
    assert!(q.advance());
    assert!(q.advance_on_button(false));
    assert!(DialogBoxMessages::default().current().is_none());
}

#[test]
fn escape_pauses_and_restores() {
    let esc = Keys { escape_just_pressed: true, ..keys() };
    for state in [GameState::Playing, GameState::InDialog, GameState::InLockPicking, GameState::Over, GameState::Loading] {
        let r = handle_input(state, GameState::Loading, &esc);
        assert_eq!(r, InputResponse::TogglePause { next: GameState::Paused, remembered: state });
        let back = handle_input(GameState::Paused, state, &esc);
        assert_eq!(back, InputResponse::TogglePause { next: state, remembered: state });
    }
}

#[test]
fn playing_reads_movement() {
    let k = Keys { w: true, d: true, shift: true, e_just_pressed: true, ..keys() };
    assert_eq!(
        handle_input(GameState::Playing, GameState::Loading, &k),
        InputResponse::Play { interact: true, movement: MovementIntent { dx: 1, dz: -1, sprint: true, jump: false } }
    );
    let k = Keys { w: true, s: true, a: true, space: true, ..keys() };
    assert_eq!(
        handle_input(GameState::Playing, GameState::Loading, &k),
        InputResponse::Play { interact: false, movement: MovementIntent { dx: -1, dz: 0, sprint: false, jump: true } }
    );
}

#[test]
fn other_states_read_their_keys() {
    let k = Keys { space_just_pressed: true, a: true, ..keys() };
    assert_eq!(handle_input(GameState::InDialog, GameState::Loading, &k), InputResponse::Dialog { continue_dialog: true });
    assert_eq!(
        handle_input(GameState::InLockPicking, GameState::Loading, &k),
        InputResponse::LockPicking { move_left: true, move_right: false, rotate: true }
    );
    assert_eq!(handle_input(GameState::Paused, GameState::Playing, &k), InputResponse::Ignore);
    assert_eq!(handle_input(GameState::Over, GameState::Playing, &k), InputResponse::Ignore);
}
