//! Tests of the menu flow, the player movement decisions, the storyline
//! intro text, the data store, and the game start.

use the_caverns::constants::{join_with, story_intro_lines, story_intro_text};
use the_caverns::data_store::{DataStore, Field};
use the_caverns::map_state::{LevelReadinessState, MapReadinessState, MapState};
use the_caverns::menu_state::GameMenuState;
use the_caverns::menu_systems::{
    storyline_intro_shown, update_button_hover_state, update_quit_button, update_start_button,
    update_storyline_intro_screen_btn, ButtonInteraction, ButtonVisual,
};
use the_caverns::player::{player_movement, AxisCommand, MovementKeys};
use the_caverns::util::start_game;

#[test]
fn defaults_are_the_resting_states() {
    assert_eq!(MapReadinessState::default(), MapReadinessState::Unloaded);
    assert_eq!(LevelReadinessState::default(), LevelReadinessState::Unloaded);
    assert_eq!(GameMenuState::default(), GameMenuState::StartScreen);
}

#[test]
fn intro_is_not_recorded_as_shown() {
    assert!(!storyline_intro_shown());
}

#[test]
fn start_button_shows_the_intro_first() {
    let action = update_start_button(&ButtonInteraction::Clicked, false);
    assert_eq!(action.next_menu, Some(GameMenuState::StorylineIntro));
    assert_eq!(action.next_map, None);
    assert!(!action.start_game);
}

#[test]
fn start_button_enters_the_game_when_intro_was_shown() {
    let action = update_start_button(&ButtonInteraction::Clicked, true);
    assert_eq!(action.next_menu, Some(GameMenuState::InGame));
    assert_eq!(action.next_map, Some(MapReadinessState::Loading));
    assert!(action.start_game);
}

#[test]
fn start_button_ignores_everything_but_clicks() {
    for interaction in [ButtonInteraction::Hovered, ButtonInteraction::Idle] {
        let action = update_start_button(&interaction, true);
        assert_eq!(action.next_menu, None);
        assert_eq!(action.next_map, None);
        assert!(!action.start_game);
    }
}

#[test]
fn continue_button_enters_the_game() {
    let action = update_storyline_intro_screen_btn(&ButtonInteraction::Clicked);
    assert_eq!(action.next_menu, Some(GameMenuState::InGame));
    assert_eq!(action.next_map, Some(MapReadinessState::Loading));
    assert!(action.start_game);

    let idle = update_storyline_intro_screen_btn(&ButtonInteraction::Idle);
    assert_eq!(idle.next_menu, None);
    assert_eq!(idle.next_map, None);
    assert!(!idle.start_game);
}

#[test]
fn quit_button_quits_on_click_only() {
    assert!(update_quit_button(&ButtonInteraction::Clicked));
    assert!(!update_quit_button(&ButtonInteraction::Hovered));
    assert!(!update_quit_button(&ButtonInteraction::Idle));
}

#[test]
fn buttons_darken_while_hovered() {
    assert_eq!(
        update_button_hover_state(&ButtonInteraction::Hovered),
        Some(ButtonVisual::Hovered)
    );
    assert_eq!(update_button_hover_state(&ButtonInteraction::Idle), Some(ButtonVisual::Normal));
    assert_eq!(update_button_hover_state(&ButtonInteraction::Clicked), None);
}

fn no_keys() -> MovementKeys {
    MovementKeys {
        forward_pressed: false,
        backward_pressed: false,
        left_pressed: false,
        right_pressed: false,
        forward_released: false,
        backward_released: false,
        left_released: false,
        right_released: false,
    }
}

#[test]
fn held_keys_move_the_player() {
    let mut keys = no_keys();
    keys.forward_pressed = true;
    keys.left_pressed = true;
    let (horizontal, vertical) = player_movement(&keys);
    assert_eq!(horizontal, AxisCommand::SetNegative);
    assert_eq!(vertical, AxisCommand::SetPositive);
}

#[test]
fn opposed_keys_favour_backward_and_right() {
    let mut keys = no_keys();
    keys.forward_pressed = true;
    keys.backward_pressed = true;
    keys.left_pressed = true;
    keys.right_pressed = true;
    let (horizontal, vertical) = player_movement(&keys);
    assert_eq!(horizontal, AxisCommand::SetPositive);
    assert_eq!(vertical, AxisCommand::SetNegative);
}

#[test]
fn releasing_a_key_stops_its_axis() {
    let mut keys = no_keys();
    keys.forward_pressed = true;
    keys.backward_released = true;
    keys.right_pressed = true;
    let (horizontal, vertical) = player_movement(&keys);
    assert_eq!(horizontal, AxisCommand::SetPositive);
    assert_eq!(vertical, AxisCommand::SetZero);
}

#[test]
fn idle_keys_keep_the_velocity() {
    let keys = no_keys();
    let (horizontal, vertical) = player_movement(&keys);
    assert_eq!(horizontal, AxisCommand::Keep);
    assert_eq!(vertical, AxisCommand::Keep);
}

#[test]
fn story_intro_has_seven_lines() {
    let lines = story_intro_lines();
    assert_eq!(lines.len(), 7);
    assert_eq!(lines[0], "A darkness has fallen upon this once beautiful land.");
    assert_eq!(lines[6], "There is now only the remains of their dark and dusty halls...");
}

#[test]
fn story_intro_text_joins_lines_with_blank_lines() {
    let text = story_intro_text();
    let expected = story_intro_lines().join("\n\n");
    assert_eq!(text, expected);
    assert!(text.starts_with("A darkness has fallen"));
    assert!(text.contains("death and decay\n\nLake crystal clear"));
}

#[test]
fn join_with_handles_small_inputs() {
    let empty: Vec<&str> = Vec::new();
    assert_eq!(join_with(&empty, ", "), "");
    assert_eq!(join_with(&vec!["one"], ", "), "one");
    assert_eq!(join_with(&vec!["one", "two"], ", "), "one, two");
}

#[test]
fn fields_hold_what_was_set() {
    let _store = DataStore {};
    let mut field = Field::new(3u32);
    assert_eq!(*field.get(), 3);
    field.set(11);
    assert_eq!(*field.get(), 11);

    let mut flag = Field::new(false);
    flag.set(true);
    assert!(*flag.get());
}

#[test]
fn starting_the_game_points_at_the_map_asset() {
    let mut state = MapState::default();
    state.current_level = 2;
    start_game(&mut state, 77);
    assert_eq!(state.handle, 77);
    assert_eq!(state.current_level, 2);
    assert!(state.textures.is_empty());
}
