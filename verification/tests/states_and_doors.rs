use haunted::door::{door_reaction, Door, DoorInteraction, DoorReaction, DoorStatus};
use haunted::interaction::{help_box_update, is_visible, on_interaction_key, HelpBoxUpdate, InteractionOutcome};
use haunted::lock_picking::LockPickingData;
use haunted::states::{chapter_on_game_start, states_on_game_exit, AppState, ChapterState, GameState, MenuState};

#[test]
fn state_predicates() {
    assert!(AppState::Game.is_game());
    assert!(!AppState::Menu.is_game());
    assert!(!AppState::Splash.is_game());
    assert!(ChapterState::Unloaded.is_none());
    assert!(!ChapterState::One.is_none());
    assert!(!ChapterState::Two.is_none());
    assert!(GameState::Loading.is_loading());
    assert!(!GameState::Playing.is_loading());
    assert!(GameState::Playing.is_playing());
    assert!(!GameState::InDialog.is_playing());
    assert!(GameState::Paused.is_paused());
    assert!(!GameState::Over.is_paused());
}

#[test]
fn state_defaults() {
    assert_eq!(AppState::default(), AppState::Splash);
    assert_eq!(ChapterState::default(), ChapterState::Unloaded);
    assert_eq!(GameState::default(), GameState::Loading);
    assert_eq!(MenuState::default(), MenuState::Disabled);
}

#[test]
fn door_kinds() {
    assert_eq!(Door::knockable(), Door { interaction: DoorInteraction::Knock, status: DoorStatus::Locked });
    assert_eq!(Door::map_limit(), Door { interaction: DoorInteraction::Open, status: DoorStatus::MapLimit });
    assert_eq!(Door::locked(), Door { interaction: DoorInteraction::Open, status: DoorStatus::Locked });
    assert_eq!(Door::openable(), Door { interaction: DoorInteraction::Open, status: DoorStatus::Closed });
    assert!(!Door::openable().is_open());
}

#[test]
fn set_is_open_by_kind() {
    let mut door = Door::openable();
    door.set_is_open(true);
    assert!(door.is_open());
    assert_eq!(door.interaction, DoorInteraction::Open);
    door.set_is_open(false);
    assert_eq!(door, Door::openable());

    let mut door = Door::knockable();
    door.set_is_open(true);
    assert_eq!(door.status, DoorStatus::Open);
    door.set_is_open(false);
    assert_eq!(door, Door::knockable());

    // Closing a door at the edge of the map rests it closed, not at the map limit.
    let mut door = Door::map_limit();
    door.set_is_open(false);
    assert_eq!(door.status, DoorStatus::Closed);
}

#[test]
fn interaction_key_toggles_openable_door() {
    let mut door = Door::openable();
    assert!(matches!(door_reaction(&door), DoorReaction::Open));
    door.set_is_open(true);
    assert!(matches!(door_reaction(&door), DoorReaction::Close));
    door.set_is_open(false);
    assert!(matches!(door_reaction(&door), DoorReaction::Open));
}

#[test]
fn door_reactions() {
    match door_reaction(&Door::locked()) {
        DoorReaction::Say(e) => {
            assert_eq!(e.messages.len(), 1);
            assert_eq!(e.messages[0].character, "You");
            assert_eq!(e.messages[0].content, "This door is locked.");
        }
        other => panic!("unexpected {other:?}"),
    }
    match door_reaction(&Door::map_limit()) {
        DoorReaction::Say(e) => {
            assert_eq!(e.messages.len(), 1);
            assert_eq!(e.messages[0].content, "I have things to do here first.");
        }
        other => panic!("unexpected {other:?}"),
    }
    assert!(matches!(door_reaction(&Door::knockable()), DoorReaction::Knock));
    let open_knockable = Door { interaction: DoorInteraction::Knock, status: DoorStatus::Open };
    assert!(matches!(door_reaction(&open_knockable), DoorReaction::Nothing));
    let closed_knockable = Door { interaction: DoorInteraction::Knock, status: DoorStatus::Closed };
    assert!(matches!(door_reaction(&closed_knockable), DoorReaction::Nothing));
}

#[test]
fn talk_comes_before_doors() {
    match on_interaction_key(Some(7), Some((3, Door::openable()))) {
        InteractionOutcome::Talk(e) => assert_eq!(e, 7),
        other => panic!("unexpected {other:?}"),
    }
    match on_interaction_key(None, Some((3, Door::openable()))) {
        InteractionOutcome::Door(e, DoorReaction::Open) => assert_eq!(e, 3),
        other => panic!("unexpected {other:?}"),
    }
    assert!(matches!(on_interaction_key(None, None), InteractionOutcome::Nothing));
}

fn shown(u: HelpBoxUpdate) -> Option<String> {
    match u {
        HelpBoxUpdate::Show(s) => Some(s),
        _ => None,
    }
}

#[test]
fn help_box_texts() {
    assert!(matches!(help_box_update(false, true, true, Some(Door::openable())), HelpBoxUpdate::Hide));
    assert_eq!(shown(help_box_update(true, true, true, None)).unwrap(), "Press E to switch light");
    assert_eq!(shown(help_box_update(true, false, true, None)).unwrap(), "Press E to talk");
    assert_eq!(shown(help_box_update(true, false, false, Some(Door::knockable()))).unwrap(), "Press E to knock door");
    assert_eq!(shown(help_box_update(true, false, false, Some(Door::locked()))).unwrap(), "Press E to unlock door");
    assert_eq!(shown(help_box_update(true, false, false, Some(Door::openable()))).unwrap(), "Press E to open door");
    assert_eq!(shown(help_box_update(true, false, false, Some(Door::map_limit()))).unwrap(), "Press E to open door");
    let mut open = Door::openable();
    open.set_is_open(true);
    assert_eq!(shown(help_box_update(true, false, false, Some(open))).unwrap(), "Press E to close door");
    let mut knocked_open = Door::knockable();
    knocked_open.set_is_open(true);
    assert!(matches!(help_box_update(true, false, false, Some(knocked_open)), HelpBoxUpdate::Unchanged));
    assert!(matches!(help_box_update(true, false, false, None), HelpBoxUpdate::Hide));
}

#[test]
fn visibility_lists() {
    let lists = vec![vec![1, 2], vec![], vec![9, 4]];
    assert!(is_visible(&lists, 4));
    assert!(is_visible(&lists, 1));
    assert!(!is_visible(&lists, 3));
    assert!(!is_visible(&vec![], 1));
}

#[test]
fn lock_picking_unlocks_door() {
    let (mut data, state) = LockPickingData::start(42);
    assert_eq!(state, GameState::InLockPicking);
    assert_eq!(data, LockPickingData { entity: Some(42), solved: false });
    data.rotate(false);
    assert!(!data.is_turning());
    data.rotate(true);
    assert!(data.is_turning());
    data.rotate(false);
    assert!(data.is_turning());
    let mut door = Door::locked();
    let (entity, state) = data.finish(&mut door);
    assert_eq!(entity, 42);
    assert_eq!(state, GameState::Playing);
    assert_eq!(data, LockPickingData::default());
    assert_eq!(door, Door::openable());
    door.set_is_open(true);
    door.set_is_open(false);
    assert_eq!(door.status, DoorStatus::Closed);
}

#[test]
fn entering_and_leaving_the_game() {
    assert_eq!(chapter_on_game_start(), ChapterState::One);
    assert_eq!(states_on_game_exit(), (GameState::Loading, ChapterState::Unloaded));
}
