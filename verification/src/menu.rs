use vstd::prelude::*;

use crate::states::{AppState, GameState, MenuState};

verus! {

/// Quality of the display, chosen in the settings.
#[derive(Clone, Copy, Debug, PartialEq, Eq, Structural)]
pub enum DisplayQuality {
    Low,
    Medium,
    High,
}

/// Sound volume, chosen in the settings.
#[derive(Clone, Copy, Debug, PartialEq, Eq, Structural)]
pub struct Volume(pub u32);

/// A value that a row of setting buttons chooses from.
pub trait SettingValue: Copy + Sized {
    /// Whether two values are the same setting.
    fn same(&self, other: &Self) -> (r: bool)
        ensures
            r <==> *self == *other,
    ;
}

impl SettingValue for DisplayQuality {
    fn same(&self, other: &Self) -> (r: bool) {
        *self == *other
    }
}

impl SettingValue for Volume {
    fn same(&self, other: &Self) -> (r: bool) {
        self.0 == other.0
    }
}

/// A setting button whose interaction changed this frame: whether it is pressed, the value it
/// stands for, and the entity of the button.
#[derive(Debug)]
pub struct SettingPress<T> {
    pub pressed: bool,
    pub value: T,
    pub entity: u64,
}

/// The setting, and the buttons newly marked as selected, after the given presses in order:
/// a pressed button whose value differs from the current setting becomes the setting.
pub open spec fn apply_presses<T>(presses: Seq<SettingPress<T>>, setting: T) -> (T, Seq<u64>)
    decreases presses.len(),
{
    if presses.len() == 0 {
        (setting, Seq::empty())
    } else {
        let before = apply_presses(presses.drop_last(), setting);
        let p = presses.last();
        if p.pressed && p.value != before.0 {
            (p.value, before.1.push(p.entity))
        } else {
            before
        }
    }
}

/// Applies the presses of a frame to a setting; returns the buttons to mark as selected, in
/// order. When any is returned, the button that was selected before loses the mark.
pub fn setting_button<T: SettingValue>(presses: &Vec<SettingPress<T>>, setting: &mut T) -> (selected:
    Vec<u64>)
    ensures
        (*final(setting), selected@) == apply_presses(presses@, *old(setting)),
{
    let ghost start = *setting;
    let mut selected: Vec<u64> = Vec::new();
    let mut i: usize = 0;
    while i < presses.len()
        invariant
            i <= presses@.len(),
            (*setting, selected@) == apply_presses(presses@.take(i as int), start),
        decreases presses.len() - i,
    {
        let p = &presses[i];
        assert(presses@.take(i + 1).drop_last() =~= presses@.take(i as int));
        if p.pressed && !p.value.same(setting) {
            *setting = p.value;
            selected.push(p.entity);
        }
        i += 1;
    }
    assert(presses@.take(presses@.len() as int) =~= presses@);
    selected
}

/// Pressing a setting button makes its value the setting, and pressing it again changes
/// nothing.
pub proof fn lemma_setting_press_idempotent<T>(p: SettingPress<T>, setting: T)
    requires
        p.pressed,
    ensures
        apply_presses(seq![p], setting).0 == p.value,
        apply_presses(seq![p], apply_presses(seq![p], setting).0).0 == p.value,
        apply_presses(seq![p], apply_presses(seq![p], setting).0).1.len() == 0,
        (p.value != setting) == (apply_presses(seq![p], setting).1 == seq![p.entity]),
{
    let one = seq![p];
    assert(one.drop_last() =~= Seq::<SettingPress<T>>::empty());
    assert(one.last() == p);
    assert(apply_presses(one.drop_last(), setting) == (setting, Seq::<u64>::empty()));
    let first = apply_presses(one, setting);
    assert(Seq::<u64>::empty().push(p.entity) =~= seq![p.entity]);
    if p.value != setting {
        assert(first == (p.value, seq![p.entity]));
    } else {
        assert(first == (setting, Seq::<u64>::empty()));
        assert(first.1.len() != seq![p.entity].len());
    }
    assert(apply_presses(one.drop_last(), first.0) == (first.0, Seq::<u64>::empty()));
    assert(apply_presses(one, first.0) == (first.0, Seq::<u64>::empty()));
}

/// The buttons of the main menu and its settings screens.
#[derive(Clone, Copy, Debug, PartialEq, Eq, Structural)]
pub enum MenuButtonAction {
    Play,
    Settings,
    SettingsDisplay,
    SettingsSound,
    BackToMainMenu,
    BackToSettings,
    Exit,
}

/// What a pressed menu button does: the menu screen to show, the application state to enter,
/// and whether the application exits.
#[derive(Clone, Copy, Debug, PartialEq, Eq, Structural)]
pub struct MenuTransition {
    pub menu: Option<MenuState>,
    pub app: Option<AppState>,
    pub exit: bool,
}

/// The effect of pressing a menu button.
pub open spec fn menu_transition(action: MenuButtonAction) -> MenuTransition {
    match action {
        MenuButtonAction::Exit => MenuTransition { menu: None, app: None, exit: true },
        MenuButtonAction::Play => MenuTransition {
            menu: Some(MenuState::Disabled),
            app: Some(AppState::Game),
            exit: false,
        },
        MenuButtonAction::Settings => MenuTransition {
            menu: Some(MenuState::Settings),
            app: None,
            exit: false,
        },
        MenuButtonAction::SettingsDisplay => MenuTransition {
            menu: Some(MenuState::SettingsDisplay),
            app: None,
            exit: false,
        },
        MenuButtonAction::SettingsSound => MenuTransition {
            menu: Some(MenuState::SettingsSound),
            app: None,
            exit: false,
        },
        MenuButtonAction::BackToMainMenu => MenuTransition {
            menu: Some(MenuState::Main),
            app: None,
            exit: false,
        },
        MenuButtonAction::BackToSettings => MenuTransition {
            menu: Some(MenuState::Settings),
            app: None,
            exit: false,
        },
    }
}

/// Reacts to a pressed menu button.
pub fn menu_action(action: MenuButtonAction) -> (t: MenuTransition)
    ensures
        t == menu_transition(action),
{
    match action {
        MenuButtonAction::Exit => MenuTransition { menu: None, app: None, exit: true },
        MenuButtonAction::Play => MenuTransition {
            menu: Some(MenuState::Disabled),
            app: Some(AppState::Game),
            exit: false,
        },
        MenuButtonAction::Settings => MenuTransition {
            menu: Some(MenuState::Settings),
            app: None,
            exit: false,
        },
        MenuButtonAction::SettingsDisplay => MenuTransition {
            menu: Some(MenuState::SettingsDisplay),
            app: None,
            exit: false,
        },
        MenuButtonAction::SettingsSound => MenuTransition {
            menu: Some(MenuState::SettingsSound),
            app: None,
            exit: false,
        },
        MenuButtonAction::BackToMainMenu => MenuTransition {
            menu: Some(MenuState::Main),
            app: None,
            exit: false,
        },
        MenuButtonAction::BackToSettings => MenuTransition {
            menu: Some(MenuState::Settings),
            app: None,
            exit: false,
        },
    }
}

/// Going into a settings screen and pressing its back button returns to the screen it was
/// entered from.
pub proof fn lemma_menu_back_returns()
    ensures
        menu_transition(MenuButtonAction::Settings).menu == Some(MenuState::Settings)
            && menu_transition(MenuButtonAction::BackToMainMenu).menu == Some(MenuState::Main),
        menu_transition(MenuButtonAction::SettingsDisplay).menu == Some(MenuState::SettingsDisplay)
            && menu_transition(MenuButtonAction::BackToSettings).menu == Some(MenuState::Settings),
        menu_transition(MenuButtonAction::SettingsSound).menu == Some(MenuState::SettingsSound)
            && menu_transition(MenuButtonAction::BackToSettings).menu == Some(MenuState::Settings),
        forall|a: MenuButtonAction|
            (#[trigger] menu_transition(a)).exit <==> a == MenuButtonAction::Exit,
        forall|a: MenuButtonAction|
            (#[trigger] menu_transition(a)).app is Some <==> a == MenuButtonAction::Play,
{
}

/// How a button is pointed at by the mouse.
#[derive(Clone, Copy, Debug, PartialEq, Eq, Structural)]
pub enum ButtonInteraction {
    Pressed,
    Hovered,
    Idle,
}

/// The colour a button takes.
#[derive(Clone, Copy, Debug, PartialEq, Eq, Structural)]
pub enum ButtonColor {
    Normal,
    Hovered,
    HoveredPressed,
    Pressed,
}

/// The colour of a button, by how the mouse points at it and whether it is the selected option.
pub open spec fn spec_button_color(interaction: ButtonInteraction, selected: bool) -> ButtonColor {
    match (interaction, selected) {
        (ButtonInteraction::Pressed, _) => ButtonColor::Pressed,
        (ButtonInteraction::Idle, true) => ButtonColor::Pressed,
        (ButtonInteraction::Hovered, true) => ButtonColor::HoveredPressed,
        (ButtonInteraction::Hovered, false) => ButtonColor::Hovered,
        (ButtonInteraction::Idle, false) => ButtonColor::Normal,
    }
}

/// The colour a button takes when its interaction changes.
pub fn button_color(interaction: ButtonInteraction, selected: bool) -> (c: ButtonColor)
    ensures
        c == spec_button_color(interaction, selected),
{
    match (interaction, selected) {
        (ButtonInteraction::Pressed, _) | (ButtonInteraction::Idle, true) => ButtonColor::Pressed,
        (ButtonInteraction::Hovered, true) => ButtonColor::HoveredPressed,
        (ButtonInteraction::Hovered, false) => ButtonColor::Hovered,
        (ButtonInteraction::Idle, false) => ButtonColor::Normal,
    }
}

/// The selected option always stands out: it never shows the colour of a plain button, and a
/// pressed button looks the same whether selected or not.
pub proof fn lemma_selected_option_stands_out(interaction: ButtonInteraction)
    ensures
        spec_button_color(interaction, true) != ButtonColor::Normal,
        spec_button_color(ButtonInteraction::Pressed, true) == spec_button_color(
            ButtonInteraction::Pressed,
            false,
        ),
{
}

/// A state the game or the application moves to.
#[derive(Clone, Copy, Debug, PartialEq, Eq, Structural)]
pub enum StateChange {
    Game(GameState),
    App(AppState),
}

/// The buttons of the pause menu.
#[derive(Clone, Copy, Debug, PartialEq, Eq, Structural)]
pub enum PauseMenuAction {
    Abandom,
    Resume,
}

/// Reacts to a pressed button of the pause menu: resume playing, or go back to the main menu.
pub fn pause_menu_action(action: PauseMenuAction) -> (c: StateChange)
    ensures
        action == PauseMenuAction::Resume ==> c == StateChange::Game(GameState::Playing),
        action == PauseMenuAction::Abandom ==> c == StateChange::App(AppState::Menu),
{
    match action {
        PauseMenuAction::Resume => StateChange::Game(GameState::Playing),
        PauseMenuAction::Abandom => StateChange::App(AppState::Menu),
    }
}

/// The buttons of the game over menu.
#[derive(Clone, Copy, Debug, PartialEq, Eq, Structural)]
pub enum GameOverMenuAction {
    Abandom,
}

/// Reacts to a pressed button of the game over menu: back to the main menu.
pub fn game_over_menu_action(action: GameOverMenuAction) -> (c: StateChange)
    ensures
        c == StateChange::App(AppState::Menu),
{
    match action {
        GameOverMenuAction::Abandom => StateChange::App(AppState::Menu),
    }
}

} // verus!
