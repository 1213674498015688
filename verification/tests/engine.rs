use enigo::{Button, Key};
use gamepad_remap::config::{Config, Remap};
use gamepad_remap::engine::{
    effects_of, launch_effects, names_activator, press_input, repeat_pause, DeviceOp, Effect,
    Stroke,
};
use std::time::Duration;

fn tables() -> Config {
    let mut config = Config::default();
    config.left_stick_dead_zone = Config::default_left_stick_dead_zone();
    config.right_stick_trigger_zone = Config::default_right_stick_trigger_zone();
    config.right_stick_dead_zone = Config::default_right_stick_dead_zone();
    config.alternative_activator = Some("Left_Bumper".to_string());
    config.main.insert(
        "south".to_string(),
        Remap::Sequence(vec![Key::Unicode('a'), Key::Unicode('b')]),
    );
    config.main.insert("east".to_string(), Remap::Sync(vec![Key::Control, Key::Unicode('c')]));
    config.main.insert("dpad_up".to_string(), Remap::Repeat(Key::UpArrow));
    config.main.insert("dpad_down".to_string(), Remap::Repeat(Key::DownArrow));
    config.main.insert("right_trigger".to_string(), Remap::Mouse(Button::Left));
    config.main.insert("start".to_string(), Remap::Command("sh -c 'echo hi' \"a b\"".to_string()));
    config.main.insert("select".to_string(), Remap::Command("echo 'unfinished".to_string()));
    config.main.insert("mode".to_string(), Remap::Command("   ".to_string()));
    config.alt.insert("south".to_string(), Remap::Mouse(Button::Right));
    config.alt.insert("left_bumper".to_string(), Remap::Mouse(Button::Middle));
    config
}

fn words(list: &[&str]) -> Vec<String> {
    list.iter().map(|w| w.to_string()).collect()
}

#[test]
fn test_baseline() {
    let config = Config::default();
    assert_eq!(press_input(&config, false, "", true), vec![]);
}

#[test]
fn sequence_presses_in_order_and_releases_in_reverse() {
    let config = tables();
    assert_eq!(
        press_input(&config, false, "south", true),
        vec![Effect::Inject(vec![
            DeviceOp::Key(Key::Unicode('a'), Stroke::Press),
            DeviceOp::Key(Key::Unicode('b'), Stroke::Press),
            DeviceOp::Key(Key::Unicode('b'), Stroke::Release),
            DeviceOp::Key(Key::Unicode('a'), Stroke::Release),
        ])]
    );
    assert_eq!(press_input(&config, false, "south", false), vec![]);
}

#[test]
fn empty_sequence_takes_the_device_for_nothing() {
    assert_eq!(effects_of(&Remap::Sequence(vec![]), true), vec![Effect::Inject(vec![])]);
    assert_eq!(effects_of(&Remap::Sequence(vec![]), false), vec![]);
}

#[test]
fn sync_presses_on_press_and_releases_in_reverse_on_release() {
    let config = tables();
    assert_eq!(
        press_input(&config, false, "east", true),
        vec![Effect::Inject(vec![
            DeviceOp::Key(Key::Control, Stroke::Press),
            DeviceOp::Key(Key::Unicode('c'), Stroke::Press),
        ])]
    );
    assert_eq!(
        press_input(&config, false, "east", false),
        vec![Effect::Inject(vec![
            DeviceOp::Key(Key::Unicode('c'), Stroke::Release),
            DeviceOp::Key(Key::Control, Stroke::Release),
        ])]
    );
}

#[test]
fn repeat_cancels_clicks_and_starts() {
    let config = tables();
    assert_eq!(
        press_input(&config, false, "dpad_up", true),
        vec![
            Effect::CancelRepeat,
            Effect::Inject(vec![DeviceOp::Key(Key::UpArrow, Stroke::Click)]),
            Effect::StartRepeat(Key::UpArrow),
        ]
    );
    assert_eq!(press_input(&config, false, "dpad_up", false), vec![Effect::CancelRepeat]);
}

#[test]
fn second_repeat_key_cancels_before_it_clicks() {
    let config = tables();
    let first = press_input(&config, false, "dpad_up", true);
    let second = press_input(&config, false, "dpad_down", true);
    assert_eq!(first.last(), Some(&Effect::StartRepeat(Key::UpArrow)));
    assert_eq!(
        second,
        vec![
            Effect::CancelRepeat,
            Effect::Inject(vec![DeviceOp::Key(Key::DownArrow, Stroke::Click)]),
            Effect::StartRepeat(Key::DownArrow),
        ]
    );
    let mut slot: Option<Key> = None;
    let mut alive: Vec<Key> = Vec::new();
    for effect in first.iter().chain(second.iter()) {
        match effect {
            Effect::CancelRepeat => {
                if slot.take().is_some() {
                    alive.pop();
                }
            }
            Effect::StartRepeat(key) => {
                slot = Some(*key);
                alive.push(*key);
            }
            _ => {}
        }
    }
    assert_eq!(alive, vec![Key::DownArrow]);
    assert_eq!(slot, Some(Key::DownArrow));
}

#[test]
fn mouse_button_follows_the_edge() {
    let config = tables();
    assert_eq!(
        press_input(&config, false, "right_trigger", true),
        vec![Effect::Inject(vec![DeviceOp::Button(Button::Left, Stroke::Press)])]
    );
    assert_eq!(
        press_input(&config, false, "right_trigger", false),
        vec![Effect::Inject(vec![DeviceOp::Button(Button::Left, Stroke::Release)])]
    );
}

#[test]
fn command_is_split_like_a_shell_line() {
    let config = tables();
    assert_eq!(
        press_input(&config, false, "start", true),
        vec![Effect::Launch(words(&["sh", "-c", "echo hi", "a b"]))]
    );
    assert_eq!(press_input(&config, false, "start", false), vec![]);
}

#[test]
fn command_with_open_quote_does_nothing() {
    let config = tables();
    assert_eq!(press_input(&config, false, "select", true), vec![]);
    assert_eq!(press_input(&config, false, "select", false), vec![]);
}

#[test]
fn command_without_words_does_nothing() {
    let config = tables();
    assert_eq!(press_input(&config, false, "mode", true), vec![]);
}

#[test]
fn launch_needs_a_word() {
    assert_eq!(launch_effects(None), vec![]);
    assert_eq!(launch_effects(Some(vec![])), vec![]);
    assert_eq!(
        launch_effects(Some(words(&["xdg-open", "."]))),
        vec![Effect::Launch(words(&["xdg-open", "."]))]
    );
    assert_eq!(launch_effects(Some(words(&[""]))), vec![Effect::Launch(words(&[""]))]);
}

#[test]
fn unmapped_input_does_nothing() {
    let config = tables();
    assert_eq!(press_input(&config, false, "north", true), vec![]);
    assert_eq!(press_input(&config, true, "east", true), vec![]);
    assert_eq!(press_input(&config, false, "SOUTH", true), vec![]);
}

#[test]
fn activator_sets_the_mode_and_nothing_else() {
    let config = tables();
    assert_eq!(press_input(&config, false, "left_bumper", true), vec![Effect::SetAlternative(true)]);
    assert_eq!(
        press_input(&config, true, "left_bumper", false),
        vec![Effect::SetAlternative(false)]
    );
    assert_eq!(press_input(&config, true, "left_bumper", true), vec![Effect::SetAlternative(true)]);
}

#[test]
fn activator_is_matched_in_capitals_too() {
    let config = tables();
    assert!(names_activator(&config, "left_bumper"));
    assert!(names_activator(&config, "LEFT_BUMPER"));
    assert!(names_activator(&config, "Left_Bumper"));
    assert!(!names_activator(&config, "left bumper"));
    assert!(!names_activator(&config, "right_bumper"));
    assert!(!names_activator(&Config::default(), ""));
}

#[test]
fn held_activator_routes_to_the_alternative_table() {
    let config = tables();
    let mut alternative = false;
    assert_eq!(
        press_input(&config, alternative, "south", true).len(),
        1
    );
    for effect in press_input(&config, alternative, "left_bumper", true) {
        if let Effect::SetAlternative(set) = effect {
            alternative = set;
        }
    }
    assert!(alternative);
    assert_eq!(
        press_input(&config, alternative, "south", true),
        vec![Effect::Inject(vec![DeviceOp::Button(Button::Right, Stroke::Press)])]
    );
    assert_eq!(press_input(&config, alternative, "east", true), vec![]);
    for effect in press_input(&config, alternative, "left_bumper", false) {
        if let Effect::SetAlternative(set) = effect {
            alternative = set;
        }
    }
    assert!(!alternative);
    assert_eq!(
        press_input(&config, alternative, "east", true),
        vec![Effect::Inject(vec![
            DeviceOp::Key(Key::Control, Stroke::Press),
            DeviceOp::Key(Key::Unicode('c'), Stroke::Press),
        ])]
    );
}

#[test]
fn repeating_task_waits_longer_before_its_first_click() {
    let mut config = tables();
    config.key_repeat_initial_delay = Config::default_key_repeat_initial_delay();
    config.key_repeat_sub_delay = Config::default_key_repeat_sub_delay();
    assert_eq!(repeat_pause(&config, 0), Duration::from_millis(400));
    assert_eq!(repeat_pause(&config, 1), Duration::from_millis(40));
    assert_eq!(repeat_pause(&config, 2), Duration::from_millis(40));
    assert_eq!(repeat_pause(&config, u64::MAX), Duration::from_millis(40));
}
