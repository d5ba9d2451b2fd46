use haunted::chapter_one::{
    doors, find_character, lights, on_door_knock, on_talk, switch_for, ChapterCharacter, ChapterObject,
    ChapterProgress, KnockResponse, LIGHT_307_HALL, LIGHT_307_LIVING,
};
use haunted::door::{door_reaction, Door, DoorInteraction, DoorReaction, DoorStatus};
use haunted::loading::LoadingData;
use haunted::menu::{
    button_color, game_over_menu_action, menu_action, pause_menu_action, setting_button, ButtonColor,
    ButtonInteraction, DisplayQuality, GameOverMenuAction, MenuButtonAction, MenuTransition, PauseMenuAction,
    SettingPress, StateChange, Volume,
};
use haunted::states::{AppState, ChapterState, GameState, MenuState};

#[test]
fn character_names() {
    assert_eq!(ChapterCharacter::Neighbor301.name(), "Neighbor on 301");
    assert_eq!(ChapterCharacter::Neighbor308.name(), "Neighbor on 308");
    assert_eq!(ChapterCharacter::Unknown.name(), "None");
    assert_eq!(ChapterCharacter::default(), ChapterCharacter::Unknown);
}

#[test]
fn door_table() {
    let d = doors();
    assert_eq!(d.len(), 9);
    assert_eq!(d[0].object, ChapterObject::DoorStairs);
    assert_eq!(d[0].door, Door::map_limit());
    assert_eq!(d[3].character, ChapterCharacter::Neighbor303);
    assert_eq!(d[3].door, Door::knockable());
    assert_eq!(d[7].object, ChapterObject::Door307);
    assert_eq!(d[7].door, Door::locked());
    assert_eq!(d[8].character, ChapterCharacter::Neighbor308);
}

#[test]
fn light_table() {
    let l = lights();
    assert_eq!(l.len(), 7);
    for i in 0..5 {
        assert!(l[i].light.is_on);
        assert_eq!(l[i].light.id, "");
        assert!(!l[i].has_switch);
    }
    assert_eq!(l[5].light.id, LIGHT_307_LIVING);
    assert_eq!(l[6].light.id, "light-307-hall");
    assert_eq!(LIGHT_307_HALL, "light-307-hall");
    assert!(!l[6].light.is_on && l[6].has_switch);
    assert_eq!(switch_for(&l[6].light).target_id, "light-307-hall");
}

#[test]
fn find_first_character() {
    let cs = vec![ChapterCharacter::Unknown, ChapterCharacter::Neighbor303, ChapterCharacter::Neighbor303];
    assert_eq!(find_character(&cs, ChapterCharacter::Neighbor303), Some(1));
    assert_eq!(find_character(&cs, ChapterCharacter::Neighbor301), None);
}

#[test]
fn knocks() {
    let mut progress = ChapterProgress::default();
    let mut door = Door::knockable();
    match on_door_knock(ChapterCharacter::Neighbor301, &mut door, &mut progress) {
        KnockResponse::OpenDoor { reveal_talk } => assert_eq!(reveal_talk, ChapterCharacter::Neighbor301),
        other => panic!("unexpected {other:?}"),
    }
    assert_eq!(door, Door::knockable());
    match on_door_knock(ChapterCharacter::Neighbor306, &mut door, &mut progress) {
        KnockResponse::Reply(e) => {
            assert_eq!(e.messages.len(), 3);
            assert_eq!(e.messages[0].character, "Neighbor on 306");
            assert_eq!(e.messages[0].content, "Who is it?");
            assert_eq!(e.messages[1].character, "You");
            assert_eq!(e.messages[2].content, "I don't have time for you, go away!");
        }
        other => panic!("unexpected {other:?}"),
    }
    assert_eq!(progress, ChapterProgress::default());
    match on_door_knock(ChapterCharacter::Neighbor303, &mut door, &mut progress) {
        KnockResponse::ReplyThenOpen(e) => {
            assert_eq!(e.messages[0].content, "Wait, Just give me a second, I'm coming.");
        }
        other => panic!("unexpected {other:?}"),
    }
    assert!(progress.knocked_on_303);
    assert!(!progress.initial_monologue);
}

#[test]
fn empty_apartment_stops_knocking() {
    let mut progress = ChapterProgress::default();
    let mut door = Door::knockable();
    match on_door_knock(ChapterCharacter::Unknown, &mut door, &mut progress) {
        KnockResponse::Reply(e) => {
            assert_eq!(e.messages.len(), 1);
            assert_eq!(e.messages[0].character, "You");
            assert_eq!(e.messages[0].content, "Looks like nobody is here");
        }
        other => panic!("unexpected {other:?}"),
    }
    assert_eq!(door, Door { interaction: DoorInteraction::Open, status: DoorStatus::Locked });
    match door_reaction(&door) {
        DoorReaction::Say(e) => assert_eq!(e.messages[0].content, "This door is locked."),
        other => panic!("unexpected {other:?}"),
    }
}

#[test]
fn talks() {
    let t = on_talk(ChapterCharacter::Neighbor301).unwrap();
    assert_eq!(t.dialog.messages.len(), 4);
    assert!(!t.close_door_after);
    assert_eq!(t.dialog.messages[3].content, "Ok.");
    let t = on_talk(ChapterCharacter::Neighbor303).unwrap();
    assert_eq!(t.dialog.messages.len(), 13);
    assert!(t.close_door_after);
    assert_eq!(t.dialog.messages[12].character, "You");
    assert!(on_talk(ChapterCharacter::Neighbor302).is_none());
    assert!(on_talk(ChapterCharacter::Unknown).is_none());
}

#[test]
fn monologue_once() {
    let mut progress = ChapterProgress::default();
    assert!(progress.monologue_due());
    let e = progress.show_initial_monologue();
    assert_eq!(e.messages.len(), 2);
    assert!(e.messages[0].content.starts_with("The Martinez family"));
    assert!(!progress.monologue_due());
    let mut knocked = ChapterProgress { initial_monologue: false, knocked_on_303: true };
    assert!(!knocked.monologue_due());
    knocked.show_initial_monologue();
    assert!(knocked.initial_monologue && knocked.knocked_on_303);
}

#[test]
fn menu_transitions() {
    assert_eq!(menu_action(MenuButtonAction::Play), MenuTransition { menu: Some(MenuState::Disabled), app: Some(AppState::Game), exit: false });
    assert_eq!(menu_action(MenuButtonAction::Exit), MenuTransition { menu: None, app: None, exit: true });
    assert_eq!(menu_action(MenuButtonAction::SettingsSound).menu, Some(MenuState::SettingsSound));
    assert_eq!(menu_action(MenuButtonAction::BackToSettings).menu, Some(MenuState::Settings));
    assert_eq!(menu_action(MenuButtonAction::BackToMainMenu).menu, Some(MenuState::Main));
    assert_eq!(pause_menu_action(PauseMenuAction::Resume), StateChange::Game(GameState::Playing));
    assert_eq!(pause_menu_action(PauseMenuAction::Abandom), StateChange::App(AppState::Menu));
    assert_eq!(game_over_menu_action(GameOverMenuAction::Abandom), StateChange::App(AppState::Menu));
}

#[test]
fn button_colors() {
    assert_eq!(button_color(ButtonInteraction::Pressed, false), ButtonColor::Pressed);
    assert_eq!(button_color(ButtonInteraction::Idle, true), ButtonColor::Pressed);
    assert_eq!(button_color(ButtonInteraction::Hovered, true), ButtonColor::HoveredPressed);
    assert_eq!(button_color(ButtonInteraction::Hovered, false), ButtonColor::Hovered);
    assert_eq!(button_color(ButtonInteraction::Idle, false), ButtonColor::Normal);
}

#[test]
fn settings_select() {
    let mut quality = DisplayQuality::Medium;
    let presses = vec![
        SettingPress { pressed: false, value: DisplayQuality::Low, entity: 1 },
        SettingPress { pressed: true, value: DisplayQuality::High, entity: 3 },
    ];
    assert_eq!(setting_button(&presses, &mut quality), vec![3]);
    assert_eq!(quality, DisplayQuality::High);
    assert!(setting_button(&presses, &mut quality).is_empty());
    let mut volume = Volume(7);
    let presses = vec![SettingPress { pressed: true, value: Volume(2), entity: 12 }];
    assert_eq!(setting_button(&presses, &mut volume), vec![12]);
    assert_eq!(volume, Volume(2));
}

#[test]
fn loading_waits_for_assets_and_pipelines() {
    let mut data: LoadingData<&str> = LoadingData::default();
    data.track("map");
    data.track("door");
    assert!(!data.update(&vec![true, false]));
    assert_eq!(data.loaded_assets_count, 1);
    assert!(!data.update(&vec![true, true]));
    assert_eq!(data.loaded_assets_count, 2);
    assert!(!data.update(&vec![true, true]));
    data.update_pipelines_ready(AppState::Game, GameState::Playing, ChapterState::Unloaded, 0);
    assert!(!data.pipelines_ready);
    data.update_pipelines_ready(AppState::Game, GameState::Loading, ChapterState::One, 0);
    assert!(!data.pipelines_ready);
    data.update_pipelines_ready(AppState::Game, GameState::Loading, ChapterState::Unloaded, 2);
    assert!(!data.pipelines_ready);
    data.update_pipelines_ready(AppState::Game, GameState::Loading, ChapterState::Unloaded, 0);
    assert!(data.pipelines_ready);
    assert!(data.update(&vec![false, false]));
    assert_eq!(data.loaded_assets_count, 2);
}
