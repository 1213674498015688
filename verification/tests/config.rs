use gamepad_remap::config::{Config, Remap};
use std::time::Duration;

fn valid() -> Config {
    let mut config = Config::default();
    config.left_stick_dead_zone = Config::default_left_stick_dead_zone();
    config.right_stick_trigger_zone = Config::default_right_stick_trigger_zone();
    config.right_stick_dead_zone = Config::default_right_stick_dead_zone();
    config
}

#[test]
fn defaults_have_their_values() {
    assert_eq!(Config::default_key_repeat_initial_delay(), Duration::from_millis(400));
    assert_eq!(Config::default_key_repeat_sub_delay(), Duration::from_millis(40));
    assert_eq!(Config::default_left_stick_poll_interval(), Duration::from_millis(10));
    assert_eq!(Config::default_right_stick_poll_interval(), Duration::from_millis(50));
    assert_eq!(Config::default_left_stick_dead_zone(), 0.05f32.to_bits());
    assert_eq!(Config::default_mouse_initial_speed(), 10.0f32.to_bits());
    assert_eq!(Config::default_mouse_max_speed(), 20.0f32.to_bits());
    assert_eq!(Config::default_mouse_ticks_to_reach_max_speed(), 30.0f32.to_bits());
    assert_eq!(Config::default_right_stick_trigger_zone(), 0.3f32.to_bits());
    assert_eq!(Config::default_right_stick_dead_zone(), 0.1f32.to_bits());
}

#[test]
fn default_config_is_all_zero_and_empty() {
    let config = Config::default();
    assert_eq!(config.key_repeat_initial_delay, Duration::ZERO);
    assert_eq!(config.key_repeat_sub_delay, Duration::ZERO);
    assert_eq!(config.left_stick_poll_interval, Duration::ZERO);
    assert_eq!(config.right_stick_poll_interval, Duration::ZERO);
    assert_eq!(config.left_stick_dead_zone, 0);
    assert_eq!(config.mouse_initial_speed, 0);
    assert_eq!(config.mouse_max_speed, 0);
    assert_eq!(config.mouse_ticks_to_reach_max_speed, 0);
    assert_eq!(config.right_stick_trigger_zone, 0);
    assert_eq!(config.right_stick_dead_zone, 0);
    assert!(config.alternative_activator.is_none());
    assert!(config.main.is_empty());
    assert!(config.alt.is_empty());
}

#[test]
fn valid_config_comes_back_unchanged() {
    let mut config = valid();
    config.alternative_activator = Some("mode".to_string());
    config.alt.insert("mode".to_string(), Remap::Repeat(enigo::Key::Space));
    config.main.insert("south".to_string(), Remap::Mouse(enigo::Button::Left));
    let checked = config.check_error();
    assert!(checked.is_ok());
    let config = checked.ok().unwrap();
    assert_eq!(config.left_stick_dead_zone, 0.05f32.to_bits());
    assert_eq!(config.alternative_activator, Some("mode".to_string()));
    assert_eq!(config.get_remap("south", false), Some(&Remap::Mouse(enigo::Button::Left)));
}

#[test]
fn default_config_is_rejected() {
    assert_eq!(Config::default().check_error().err(), Some("Negative zone size"));
}

#[test]
fn zone_of_zero_or_less_is_rejected() {
    let mut config = valid();
    config.left_stick_dead_zone = 0.0f32.to_bits();
    assert_eq!(config.check_error().err(), Some("Negative zone size"));

    let mut config = valid();
    config.left_stick_dead_zone = (-0.0f32).to_bits();
    assert_eq!(config.check_error().err(), Some("Negative zone size"));

    let mut config = valid();
    config.right_stick_trigger_zone = (-0.3f32).to_bits();
    assert_eq!(config.check_error().err(), Some("Negative zone size"));

    let mut config = valid();
    config.right_stick_dead_zone = f32::NEG_INFINITY.to_bits();
    assert_eq!(config.check_error().err(), Some("Negative zone size"));
}

#[test]
fn trigger_zone_below_dead_zone_is_rejected() {
    let mut config = valid();
    config.right_stick_trigger_zone = 0.05f32.to_bits();
    config.right_stick_dead_zone = 0.1f32.to_bits();
    assert_eq!(config.check_error().err(), Some("Trigger zone smaller than dead zone"));
}

#[test]
fn trigger_zone_equal_to_dead_zone_is_accepted() {
    let mut config = valid();
    config.right_stick_trigger_zone = 0.1f32.to_bits();
    config.right_stick_dead_zone = 0.1f32.to_bits();
    assert!(config.check_error().is_ok());
}

#[test]
fn zone_size_first_then_zone_order() {
    let mut config = valid();
    config.right_stick_trigger_zone = (-1.0f32).to_bits();
    config.right_stick_dead_zone = 0.5f32.to_bits();
    config.alternative_activator = Some("mode".to_string());
    config.main.insert("mode".to_string(), Remap::Repeat(enigo::Key::Space));
    assert_eq!(config.check_error().err(), Some("Negative zone size"));
}

#[test]
fn remapped_activator_is_rejected() {
    let mut config = valid();
    config.alternative_activator = Some("mode".to_string());
    config.main.insert("mode".to_string(), Remap::Repeat(enigo::Key::Space));
    assert_eq!(config.check_error().err(), Some("Activator for alternative set is remapped"));
}

#[test]
fn activator_is_looked_up_as_written() {
    let mut config = valid();
    config.alternative_activator = Some("Mode".to_string());
    config.main.insert("mode".to_string(), Remap::Repeat(enigo::Key::Space));
    assert!(config.check_error().is_ok());
}

#[test]
fn zone_that_is_no_number_passes() {
    let mut config = valid();
    config.left_stick_dead_zone = f32::NAN.to_bits();
    assert!(config.check_error().is_ok());
}

#[test]
fn get_remap_reads_the_table_of_the_mode() {
    let mut config = valid();
    config.main.insert("south".to_string(), Remap::Mouse(enigo::Button::Left));
    config.alt.insert("south".to_string(), Remap::Command("true".to_string()));
    config.alt.insert("north".to_string(), Remap::Repeat(enigo::Key::Tab));
    assert_eq!(config.get_remap("south", false), Some(&Remap::Mouse(enigo::Button::Left)));
    assert_eq!(config.get_remap("south", true), Some(&Remap::Command("true".to_string())));
    assert_eq!(config.get_remap("north", false), None);
    assert_eq!(config.get_remap("north", true), Some(&Remap::Repeat(enigo::Key::Tab)));
    assert_eq!(config.get_remap("South", false), None);
    assert_eq!(config.get_remap("", true), None);
}
