use tower_defense::input_system::read_build_input;
use tower_defense::main_menu::{
    button_visuals_and_sounds, keyboard_input, menu_action, ButtonSound, ButtonTint, Interaction,
    MenuButtonAction, MenuOutcome, ACTIVE_BORDER,
};
use tower_defense::state::{AppState, PlayerState};

#[test]
fn application_opens_on_the_menu() {
    assert_eq!(AppState::default(), AppState::Menu);
    assert_eq!(PlayerState::default(), PlayerState::Build);
}

#[test]
fn build_key_toggles_build_mode() {
    assert_eq!(read_build_input(true, PlayerState::Build), Some(PlayerState::Idle));
    assert_eq!(read_build_input(true, PlayerState::Idle), Some(PlayerState::Build));
}

#[test]
fn build_key_not_pressed_asks_nothing() {
    assert_eq!(read_build_input(false, PlayerState::Build), None);
    assert_eq!(read_build_input(false, PlayerState::Idle), None);
}

#[test]
fn build_key_twice_returns() {
    for start in [PlayerState::Build, PlayerState::Idle] {
        let once = read_build_input(true, start).unwrap();
        let twice = read_build_input(true, once).unwrap();
        assert_eq!(twice, start);
    }
}

#[test]
fn escape_opens_menu_from_any_state() {
    for state in [AppState::Menu, AppState::InGame, AppState::Paused] {
        assert_eq!(keyboard_input(true, false, state), Some(AppState::Menu));
    }
}

#[test]
fn space_pauses_and_resumes() {
    assert_eq!(keyboard_input(false, true, AppState::InGame), Some(AppState::Paused));
    assert_eq!(keyboard_input(false, true, AppState::Paused), Some(AppState::InGame));
    assert_eq!(keyboard_input(false, true, AppState::Menu), Some(AppState::Paused));
}

#[test]
fn space_has_the_last_word_over_escape() {
    assert_eq!(keyboard_input(true, true, AppState::InGame), Some(AppState::Paused));
    assert_eq!(keyboard_input(true, true, AppState::Paused), Some(AppState::InGame));
}

#[test]
fn no_key_asks_nothing() {
    for state in [AppState::Menu, AppState::InGame, AppState::Paused] {
        assert_eq!(keyboard_input(false, false, state), None);
    }
}

#[test]
fn menu_without_buttons_stays() {
    assert_eq!(menu_action(&vec![]), MenuOutcome::Stay);
}

#[test]
fn menu_hover_does_nothing() {
    let buttons = vec![
        (Interaction::Hovered, MenuButtonAction::Play),
        (Interaction::Idle, MenuButtonAction::Quit),
    ];
    assert_eq!(menu_action(&buttons), MenuOutcome::Stay);
}

#[test]
fn menu_play_starts_the_game() {
    let buttons = vec![
        (Interaction::Idle, MenuButtonAction::Quit),
        (Interaction::Pressed, MenuButtonAction::Play),
    ];
    assert_eq!(menu_action(&buttons), MenuOutcome::Enter(AppState::InGame));
}

#[test]
fn menu_quit_wins_over_play() {
    let play_first = vec![
        (Interaction::Pressed, MenuButtonAction::Play),
        (Interaction::Pressed, MenuButtonAction::Quit),
    ];
    let quit_first = vec![
        (Interaction::Pressed, MenuButtonAction::Quit),
        (Interaction::Pressed, MenuButtonAction::Play),
    ];
    assert_eq!(menu_action(&play_first), MenuOutcome::Quit);
    assert_eq!(menu_action(&quit_first), MenuOutcome::Quit);
}

#[test]
fn hovered_button_gets_border_and_hover_sound() {
    let f = button_visuals_and_sounds(Interaction::Hovered);
    assert_eq!(f.border, 3);
    assert_eq!(f.border, ACTIVE_BORDER);
    assert_eq!(f.tint, ButtonTint::Hover);
    assert_eq!(f.sound, Some(ButtonSound::Hover));
}

#[test]
fn pressed_button_gets_border_and_click_sound() {
    let f = button_visuals_and_sounds(Interaction::Pressed);
    assert_eq!(f.border, 3);
    assert_eq!(f.tint, ButtonTint::Press);
    assert_eq!(f.sound, Some(ButtonSound::Click));
}

#[test]
fn idle_button_loses_border_and_is_silent() {
    let f = button_visuals_and_sounds(Interaction::Idle);
    assert_eq!(f.border, 0);
    assert_eq!(f.tint, ButtonTint::Clear);
    assert_eq!(f.sound, None);
}
