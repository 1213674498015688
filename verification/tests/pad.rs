use gamepad_remap::analog::{AnalogState, Coordinate};
use gamepad_remap::atomic_f32::AtomicF32;
use gamepad_remap::pad::{
    get_axis_slot, get_button_input_name, route, Axis, Component, PadButton, PadEvent, Route, Stick,
};

#[test]
fn buttons_have_their_names() {
    assert_eq!(get_button_input_name(PadButton::North), Some("north"));
    assert_eq!(get_button_input_name(PadButton::South), Some("south"));
    assert_eq!(get_button_input_name(PadButton::West), Some("west"));
    assert_eq!(get_button_input_name(PadButton::East), Some("east"));
    assert_eq!(get_button_input_name(PadButton::LeftTrigger), Some("left_bumper"));
    assert_eq!(get_button_input_name(PadButton::RightTrigger), Some("right_bumper"));
    assert_eq!(get_button_input_name(PadButton::LeftTrigger2), Some("left_trigger"));
    assert_eq!(get_button_input_name(PadButton::RightTrigger2), Some("right_trigger"));
    assert_eq!(get_button_input_name(PadButton::Select), Some("select"));
    assert_eq!(get_button_input_name(PadButton::Start), Some("start"));
    assert_eq!(get_button_input_name(PadButton::Mode), Some("mode"));
    assert_eq!(get_button_input_name(PadButton::LeftThumb), Some("left_thumb"));
    assert_eq!(get_button_input_name(PadButton::RightThumb), Some("right_thumb"));
    assert_eq!(get_button_input_name(PadButton::DPadUp), Some("dpad_up"));
    assert_eq!(get_button_input_name(PadButton::DPadDown), Some("dpad_down"));
    assert_eq!(get_button_input_name(PadButton::DPadLeft), Some("dpad_left"));
    assert_eq!(get_button_input_name(PadButton::DPadRight), Some("dpad_right"));
}

#[test]
fn other_buttons_have_no_name() {
    assert_eq!(get_button_input_name(PadButton::C), None);
    assert_eq!(get_button_input_name(PadButton::Z), None);
    assert_eq!(get_button_input_name(PadButton::Unknown), None);
}

#[test]
fn stick_axes_have_their_slots() {
    assert_eq!(get_axis_slot(Axis::LeftStickX), Some((Stick::Left, Component::X)));
    assert_eq!(get_axis_slot(Axis::LeftStickY), Some((Stick::Left, Component::Y)));
    assert_eq!(get_axis_slot(Axis::RightStickX), Some((Stick::Right, Component::X)));
    assert_eq!(get_axis_slot(Axis::RightStickY), Some((Stick::Right, Component::Y)));
    assert_eq!(get_axis_slot(Axis::LeftZ), None);
    assert_eq!(get_axis_slot(Axis::RightZ), None);
    assert_eq!(get_axis_slot(Axis::DPadX), None);
    assert_eq!(get_axis_slot(Axis::DPadY), None);
    assert_eq!(get_axis_slot(Axis::Unknown), None);
}

#[test]
fn events_go_where_they_belong() {
    assert_eq!(route(PadEvent::Disconnected), Route::Reset);
    assert_eq!(
        route(PadEvent::ButtonPressed(PadButton::LeftTrigger)),
        Route::Edge { input_name: "left_bumper", is_press_down: true }
    );
    assert_eq!(
        route(PadEvent::ButtonReleased(PadButton::DPadLeft)),
        Route::Edge { input_name: "dpad_left", is_press_down: false }
    );
    assert_eq!(route(PadEvent::ButtonPressed(PadButton::Unknown)), Route::Ignore);
    assert_eq!(route(PadEvent::ButtonReleased(PadButton::Z)), Route::Ignore);
    assert_eq!(
        route(PadEvent::AxisChanged(Axis::RightStickY, 0.35f32.to_bits())),
        Route::Store { stick: Stick::Right, component: Component::Y, bits: 0x3eb3_3333 }
    );
    assert_eq!(route(PadEvent::AxisChanged(Axis::LeftZ, 0x3f80_0000)), Route::Ignore);
    assert_eq!(route(PadEvent::Other), Route::Ignore);
}

#[test]
fn cell_holds_what_was_stored_last() {
    let cell = AtomicF32::new();
    assert_eq!(cell.load(), 0);
    assert_eq!(f32::from_bits(cell.load()), 0.0);
    cell.store(0.35f32.to_bits());
    assert_eq!(f32::from_bits(cell.load()), 0.35);
    cell.store((-1.0f32).to_bits());
    assert_eq!(f32::from_bits(cell.load()), -1.0);
    cell.reset();
    assert_eq!(cell.load(), 0);
}

#[test]
fn coordinate_resets_both_components() {
    let coordinate = Coordinate::new();
    assert_eq!((coordinate.x.load(), coordinate.y.load()), (0, 0));
    coordinate.x.store(0.25f32.to_bits());
    coordinate.y.store((-0.75f32).to_bits());
    assert_eq!(f32::from_bits(coordinate.x.load()), 0.25);
    assert_eq!(f32::from_bits(coordinate.y.load()), -0.75);
    coordinate.reset();
    assert_eq!((coordinate.x.load(), coordinate.y.load()), (0, 0));
}

#[test]
fn state_stores_each_component_in_its_place() {
    let state = AnalogState::new();
    state.store(Stick::Left, Component::X, 1);
    state.store(Stick::Left, Component::Y, 2);
    state.store(Stick::Right, Component::X, 3);
    state.store(Stick::Right, Component::Y, 4);
    assert_eq!(state.left.x.load(), 1);
    assert_eq!(state.left.y.load(), 2);
    assert_eq!(state.right.x.load(), 3);
    assert_eq!(state.right.y.load(), 4);
}

#[test]
fn disconnect_clears_mode_and_positions() {
    let state = AnalogState::new();
    assert!(!state.is_alternative());
    state.set_alternative(true);
    state.store(Stick::Left, Component::X, 0.5f32.to_bits());
    state.store(Stick::Right, Component::X, (-1.0f32).to_bits());
    state.store(Stick::Right, Component::Y, 0.1f32.to_bits());
    assert!(state.is_alternative());
    state.reset();
    assert!(!state.is_alternative());
    assert_eq!((state.left.x.load(), state.left.y.load()), (0, 0));
    assert_eq!((state.right.x.load(), state.right.y.load()), (0, 0));
}
