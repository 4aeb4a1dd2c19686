use vulka::input::{
    Binding, Control, DeviceId, DeviceKind, GamepadControl, GamepadEventType, InputEvent,
    InputKind, InputManager, InputValue, KeyControl, MouseControl, RawDeviceId, RawEvent,
    RawGamepadEvent, RawKeyboardEvent, RawMouseEvent, RawMouseEventData,
};

const DIGITAL: u8 = 1;
const ANALOG: u8 = 2;
const ANALOG_2D: u8 = 4;
const SPACE: KeyControl = KeyControl { code: 57 };

fn key_event(key: KeyControl, pressed: bool) -> RawKeyboardEvent {
    RawKeyboardEvent { device_id: 3, key, pressed }
}

#[test]
fn devices_and_values_know_their_kind() {
    assert_eq!(RawDeviceId::Keyboard(1).kind(), DeviceKind::Keyboard);
    assert_eq!(RawDeviceId::Mouse(1).kind(), DeviceKind::Mouse);
    assert_eq!(RawDeviceId::Gamepad(1).kind(), DeviceKind::Gamepad);
    assert_eq!(InputValue::Digital(true).kind(), InputKind::Digital);
    assert_eq!(InputValue::Analog(0).kind(), InputKind::Analog);
    assert_eq!(InputValue::Analog2d(0, 0).kind(), InputKind::Analog2d);
    assert_eq!(
        (InputKind::Digital.bit(), InputKind::Analog.bit(), InputKind::Analog2d.bit()),
        (DIGITAL, ANALOG, ANALOG_2D)
    );
}

#[test]
fn controls_report_the_kinds_of_their_values() {
    assert_eq!(SPACE.kind(), DIGITAL);
    assert_eq!(MouseControl::Button(0).kind(), DIGITAL);
    assert_eq!(MouseControl::Wheel.kind(), ANALOG_2D);
    assert_eq!(MouseControl::Cursor.kind(), ANALOG_2D);
    assert_eq!(GamepadControl::Connection.kind(), DIGITAL);
    assert_eq!(GamepadControl::Button(0).kind(), DIGITAL | ANALOG);
    assert_eq!(GamepadControl::Axis(0).kind(), ANALOG);
    let keys = [
        MouseControl::Wheel.key(),
        MouseControl::Cursor.key(),
        MouseControl::Button(0).key(),
        MouseControl::Button(u16::MAX).key(),
    ];
    assert_eq!(keys, [0, 1, 2, 2 + 65535]);
    assert_eq!(GamepadControl::Button(u16::MAX).key() + 1, GamepadControl::Axis(0).key());
    assert_eq!(GamepadControl::Connection.key(), 0);
    assert_eq!(SPACE.key(), 57);
}

#[test]
fn raw_events_name_device_control_and_value() {
    let e = key_event(SPACE, true);
    assert_eq!(e.get_device_id(), RawDeviceId::Keyboard(3));
    assert_eq!(e.get_control(), SPACE);
    assert_eq!(e.get_input_value(), InputValue::Digital(true));

    let x = 1.5f64.to_bits();
    let y = (-2.0f64).to_bits();
    let mouse = |data| RawMouseEvent { device_id: 4, data };
    let cases = [
        (RawMouseEventData::Button(1, false), MouseControl::Button(1), InputValue::Digital(false)),
        (RawMouseEventData::Wheel(x, y), MouseControl::Wheel, InputValue::Analog2d(x, y)),
        (RawMouseEventData::Move(x, y), MouseControl::Cursor, InputValue::Analog2d(x, y)),
        (RawMouseEventData::Entered, MouseControl::Cursor, InputValue::Digital(true)),
        (RawMouseEventData::Left, MouseControl::Cursor, InputValue::Digital(false)),
    ];
    for (data, control, value) in cases {
        let e = mouse(data);
        assert_eq!(e.get_device_id(), RawDeviceId::Mouse(4));
        assert_eq!(e.get_control(), control);
        assert_eq!(e.get_input_value(), value);
    }

    let pad = |event| RawGamepadEvent { device_id: 5, event };
    let cases = [
        (GamepadEventType::ButtonPressed(2), GamepadControl::Button(2), InputValue::Digital(true)),
        (GamepadEventType::ButtonReleased(2), GamepadControl::Button(2), InputValue::Digital(false)),
        (GamepadEventType::ButtonChanged(2, x), GamepadControl::Button(2), InputValue::Analog(x)),
        (GamepadEventType::AxisChanged(1, y), GamepadControl::Axis(1), InputValue::Analog(y)),
        (GamepadEventType::Connected, GamepadControl::Connection, InputValue::Digital(true)),
        (GamepadEventType::Disconnected, GamepadControl::Connection, InputValue::Digital(false)),
    ];
    for (event, control, value) in cases {
        let e = pad(event);
        assert_eq!(e.get_device_id(), RawDeviceId::Gamepad(5));
        assert_eq!(e.get_control(), control);
        assert_eq!(e.get_input_value(), value);
    }
}

#[test]
fn a_bound_control_queues_its_action() {
    let mut manager = InputManager::new();
    manager.set_action(SPACE.key(), 100, None);
    assert_eq!(manager.get_action(SPACE.key()), Some(Binding { action: 100, mask: None }));
    assert_eq!(manager.get_action(1), None);
    assert_eq!(manager.get_control(100), Some(57));
    assert_eq!(manager.get_control(1), None);

    assert_eq!(manager.update(&key_event(KeyControl { code: 1 }, true), 10), 0);
    assert_eq!(manager.get_input_event_count(), 0);
    assert_eq!(manager.update(&key_event(SPACE, true), 20), 1);
    assert_eq!(manager.update(&key_event(SPACE, false), 30), 1);
    assert_eq!(manager.get_input_event_count(), 2);
    let event = |index, created_at, pressed| InputEvent {
        index,
        created_at,
        device_id: RawDeviceId::Keyboard(3),
        action: 100,
        value: InputValue::Digital(pressed),
    };
    assert_eq!(manager.get_nth_last_input_event(0), Some(event(1, 30, false)));
    assert_eq!(manager.get_nth_last_input_event(1), Some(event(0, 20, true)));
    assert_eq!(manager.get_nth_last_input_event(2), None);
    assert_eq!(manager.get_nth_last_input_event(usize::MAX), None);

    manager.flush_input_events();
    assert_eq!(manager.get_input_event_count(), 0);
    assert_eq!(manager.get_nth_last_input_event(0), None);
    // The running number goes on after a flush.
    manager.update(&key_event(SPACE, true), 40);
    assert_eq!(manager.get_nth_last_input_event(0), Some(event(2, 40, true)));
}

#[test]
fn rebinding_replaces_the_action_of_a_control() {
    let mut manager = InputManager::new();
    manager.set_action(57, 100, None);
    manager.set_action(57, 200, Some(DIGITAL));
    manager.set_action(58, 200, None);
    assert_eq!(manager.get_action(57), Some(Binding { action: 200, mask: Some(DIGITAL) }));
    assert_eq!(manager.get_control(200), Some(58));
    assert_eq!(manager.get_control(100), Some(57));
}

#[test]
fn a_mask_lets_through_only_values_of_its_kinds() {
    let mut manager = InputManager::new();
    let button = GamepadControl::Button(7);
    manager.set_action(button.key(), 1, Some(ANALOG));
    let pad = |event| RawGamepadEvent { device_id: 0, event };
    assert_eq!(manager.update(&pad(GamepadEventType::ButtonPressed(7)), 0), 0);
    assert_eq!(manager.update(&pad(GamepadEventType::ButtonChanged(7, 99)), 0), 1);
    assert_eq!(manager.get_nth_last_input_event(0).unwrap().value, InputValue::Analog(99));
    manager.set_action(button.key(), 1, Some(DIGITAL | ANALOG_2D));
    assert_eq!(manager.update(&pad(GamepadEventType::ButtonChanged(7, 99)), 0), 0);
    assert_eq!(manager.update(&pad(GamepadEventType::ButtonReleased(7)), 0), 1);
    manager.set_action(button.key(), 1, Some(0));
    assert_eq!(manager.update(&pad(GamepadEventType::ButtonReleased(7)), 0), 0);
    assert_eq!(manager.get_input_event_count(), 2);
}

#[test]
fn wildcards_follow_the_bound_action_in_order() {
    let mut manager = InputManager::new();
    manager.set_wildcard_action(10, None);
    manager.set_wildcard_action(11, Some(ANALOG_2D));
    manager.set_wildcard_action(12, Some(DIGITAL));
    manager.set_action(MouseControl::Button(0).key(), 5, None);
    let click = RawMouseEvent { device_id: 1, data: RawMouseEventData::Button(0, true) };
    let scroll = RawMouseEvent { device_id: 1, data: RawMouseEventData::Wheel(1, 2) };
    assert_eq!(manager.update(&click, 7), 3);
    assert_eq!(manager.update(&scroll, 8), 2);
    let queued: Vec<(u64, u64, u64)> = (0..manager.get_input_event_count())
        .rev()
        .map(|offset| manager.get_nth_last_input_event(offset).unwrap())
        .map(|e| (e.index, e.action, e.created_at))
        .collect();
    assert_eq!(queued, vec![(0, 5, 7), (1, 10, 7), (2, 12, 7), (3, 10, 8), (4, 11, 8)]);
    assert_eq!(manager.get_nth_last_input_event(0).unwrap().device_id, RawDeviceId::Mouse(1));
}
