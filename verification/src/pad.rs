//! The controller's events, and where each of them goes.

use vstd::prelude::*;

verus! {

/// A button of the controller.
#[derive(Debug, Clone, Copy, PartialEq, Eq)]
pub enum PadButton {
    South,
    East,
    North,
    West,
    C,
    Z,
    LeftTrigger,
    LeftTrigger2,
    RightTrigger,
    RightTrigger2,
    Select,
    Start,
    Mode,
    LeftThumb,
    RightThumb,
    DPadUp,
    DPadDown,
    DPadLeft,
    DPadRight,
    Unknown,
}

/// An axis of the controller.
#[derive(Debug, Clone, Copy, PartialEq, Eq)]
pub enum Axis {
    LeftStickX,
    LeftStickY,
    LeftZ,
    RightStickX,
    RightStickY,
    RightZ,
    DPadX,
    DPadY,
    Unknown,
}

/// One of the two sticks.
#[derive(Debug, Clone, Copy, PartialEq, Eq)]
pub enum Stick {
    Left,
    Right,
}

/// One of the two components of a stick's position.
#[derive(Debug, Clone, Copy, PartialEq, Eq)]
pub enum Component {
    X,
    Y,
}

/// An event of the controller. A value on an axis is a single-precision
/// number given as its bit pattern.
#[derive(Debug, Clone, Copy, PartialEq, Eq)]
pub enum PadEvent {
    ButtonPressed(PadButton),
    ButtonReleased(PadButton),
    AxisChanged(Axis, u32),
    Disconnected,
    /// Any other event.
    Other,
}

/// Where an event goes.
#[derive(Debug, Clone, Copy, PartialEq, Eq)]
pub enum Route {
    /// Clear the mode and put both sticks back to the centre.
    Reset,
    /// Handle an edge of the input with this name.
    Edge { input_name: &'static str, is_press_down: bool },
    /// Store a value as one component of one stick's position.
    Store { stick: Stick, component: Component, bits: u32 },
    /// Drop the event.
    Ignore,
}

/// The name under which a button is looked up in the remapping tables. The
/// buttons `C`, `Z` and `Unknown` have none.
pub open spec fn button_name(button: PadButton) -> Option<Seq<char>> {
    match button {
        PadButton::North => Some("north"@),
        PadButton::South => Some("south"@),
        PadButton::West => Some("west"@),
        PadButton::East => Some("east"@),
        PadButton::LeftTrigger => Some("left_bumper"@),
        PadButton::RightTrigger => Some("right_bumper"@),
        PadButton::LeftTrigger2 => Some("left_trigger"@),
        PadButton::RightTrigger2 => Some("right_trigger"@),
        PadButton::Select => Some("select"@),
        PadButton::Start => Some("start"@),
        PadButton::Mode => Some("mode"@),
        PadButton::LeftThumb => Some("left_thumb"@),
        PadButton::RightThumb => Some("right_thumb"@),
        PadButton::DPadUp => Some("dpad_up"@),
        PadButton::DPadDown => Some("dpad_down"@),
        PadButton::DPadLeft => Some("dpad_left"@),
        PadButton::DPadRight => Some("dpad_right"@),
        _ => None,
    }
}

/// The component of a stick's position that an axis carries. Only the four
/// stick axes carry one.
pub open spec fn axis_slot(axis: Axis) -> Option<(Stick, Component)> {
    match axis {
        Axis::LeftStickX => Some((Stick::Left, Component::X)),
        Axis::LeftStickY => Some((Stick::Left, Component::Y)),
        Axis::RightStickX => Some((Stick::Right, Component::X)),
        Axis::RightStickY => Some((Stick::Right, Component::Y)),
        _ => None,
    }
}

/// Where an event goes, with the name of an input as a sequence of
/// characters: `None` stands for dropping the event.
pub open spec fn routed(event: PadEvent) -> Option<RouteView> {
    match event {
        PadEvent::Disconnected => Some(RouteView::Reset),
        PadEvent::ButtonPressed(button) => match button_name(button) {
            Some(input_name) => Some(RouteView::Edge { input_name, is_press_down: true }),
            None => None,
        },
        PadEvent::ButtonReleased(button) => match button_name(button) {
            Some(input_name) => Some(RouteView::Edge { input_name, is_press_down: false }),
            None => None,
        },
        PadEvent::AxisChanged(axis, bits) => match axis_slot(axis) {
            Some((stick, component)) => Some(RouteView::Store { stick, component, bits }),
            None => None,
        },
        PadEvent::Other => None,
    }
}

/// A [`Route`] other than `Ignore` as contracts speak of it: the name of an
/// input as a sequence of characters.
pub enum RouteView {
    Reset,
    Edge { input_name: Seq<char>, is_press_down: bool },
    Store { stick: Stick, component: Component, bits: u32 },
}

impl View for Route {
    type V = Option<RouteView>;

    open spec fn view(&self) -> Option<RouteView> {
        match self {
            Route::Reset => Some(RouteView::Reset),
            Route::Edge { input_name, is_press_down } => Some(
                RouteView::Edge { input_name: input_name@, is_press_down: *is_press_down },
            ),
            Route::Store { stick, component, bits } => Some(
                RouteView::Store { stick: *stick, component: *component, bits: *bits },
            ),
            Route::Ignore => None,
        }
    }
}

/// Gives the name under which a button is looked up in the remapping tables,
/// or `None` for a button that has none.
pub fn get_button_input_name(button: PadButton) -> (name: Option<&'static str>)
    ensures
        match name {
            Some(text) => button_name(button) == Some(text@),
            None => button_name(button) is None,
        },
{
    match button {
        PadButton::North => Some("north"),
        PadButton::South => Some("south"),
        PadButton::West => Some("west"),
        PadButton::East => Some("east"),
        PadButton::LeftTrigger => Some("left_bumper"),
        PadButton::RightTrigger => Some("right_bumper"),
        PadButton::LeftTrigger2 => Some("left_trigger"),
        PadButton::RightTrigger2 => Some("right_trigger"),
        PadButton::Select => Some("select"),
        PadButton::Start => Some("start"),
        PadButton::Mode => Some("mode"),
        PadButton::LeftThumb => Some("left_thumb"),
        PadButton::RightThumb => Some("right_thumb"),
        PadButton::DPadUp => Some("dpad_up"),
        PadButton::DPadDown => Some("dpad_down"),
        PadButton::DPadLeft => Some("dpad_left"),
        PadButton::DPadRight => Some("dpad_right"),
        _ => None,
    }
}

/// Gives the component of a stick's position that an axis carries.
pub fn get_axis_slot(axis: Axis) -> (slot: Option<(Stick, Component)>)
    ensures
        slot == axis_slot(axis),
{
    match axis {
        Axis::LeftStickX => Some((Stick::Left, Component::X)),
        Axis::LeftStickY => Some((Stick::Left, Component::Y)),
        Axis::RightStickX => Some((Stick::Right, Component::X)),
        Axis::RightStickY => Some((Stick::Right, Component::Y)),
        _ => None,
    }
}

/// Decides where an event goes.
///
/// A disconnection resets the shared state. A press or a release of a button
/// that has a name is an edge of the input with that name. A change on one of
/// the four stick axes is stored as that component of that stick's position.
/// Everything else is dropped.
pub fn route(event: PadEvent) -> (to: Route)
    ensures
        to@ == routed(event),
{
    match event {
        PadEvent::Disconnected => Route::Reset,
        PadEvent::ButtonPressed(button) => match get_button_input_name(button) {
            Some(input_name) => Route::Edge { input_name, is_press_down: true },
            None => Route::Ignore,
        },
        PadEvent::ButtonReleased(button) => match get_button_input_name(button) {
            Some(input_name) => Route::Edge { input_name, is_press_down: false },
            None => Route::Ignore,
        },
        PadEvent::AxisChanged(axis, bits) => match get_axis_slot(axis) {
            Some((stick, component)) => Route::Store { stick, component, bits },
            None => Route::Ignore,
        },
        PadEvent::Other => Route::Ignore,
    }
}

} // verus!
