//! Input: raw events of keyboard, mouse and gamepad are looked up in a map
//! from controls to actions and queued as input events.

use std::collections::HashMap;
use vstd::prelude::*;

verus! {

/// The kinds of device that input comes from.
#[derive(Clone, Copy, Debug, PartialEq, Eq, Structural)]
pub enum DeviceKind {
    Keyboard,
    Mouse,
    Gamepad,
}

/// The identity of a device.
pub trait DeviceId: Copy {
    type Kind;

    /// The kind of the device.
    spec fn spec_kind(&self) -> Self::Kind;

    fn kind(&self) -> (r: Self::Kind)
        ensures
            r == self.spec_kind(),
    ;
}

/// A device as the window system or the gamepad service names it.
#[derive(Clone, Copy, Debug, PartialEq, Eq, Structural)]
pub enum RawDeviceId {
    Keyboard(u64),
    Mouse(u64),
    Gamepad(usize),
}

impl DeviceId for RawDeviceId {
    type Kind = DeviceKind;

    open spec fn spec_kind(&self) -> DeviceKind {
        match self {
            RawDeviceId::Keyboard(_) => DeviceKind::Keyboard,
            RawDeviceId::Mouse(_) => DeviceKind::Mouse,
            RawDeviceId::Gamepad(_) => DeviceKind::Gamepad,
        }
    }

    fn kind(&self) -> DeviceKind {
        match self {
            RawDeviceId::Keyboard(_) => DeviceKind::Keyboard,
            RawDeviceId::Mouse(_) => DeviceKind::Mouse,
            RawDeviceId::Gamepad(_) => DeviceKind::Gamepad,
        }
    }
}

/// The kinds of value that a control reports.
#[derive(Clone, Copy, Debug, PartialEq, Eq, Structural)]
pub enum InputKind {
    Digital,
    Analog,
    Analog2d,
}

/// The bit that stands for a kind in a mask of kinds.
pub open spec fn kind_bit(kind: InputKind) -> u8 {
    match kind {
        InputKind::Digital => 1,
        InputKind::Analog => 2,
        InputKind::Analog2d => 4,
    }
}

impl InputKind {
    /// The bit that stands for this kind in a mask of kinds.
    pub fn bit(self) -> (r: u8)
        ensures
            r == kind_bit(self),
    {
        match self {
            InputKind::Digital => 1,
            InputKind::Analog => 2,
            InputKind::Analog2d => 4,
        }
    }
}

/// What a control reports. Analog values are carried as the bits of their
/// 64-bit floating-point representation.
#[derive(Clone, Copy, Debug, PartialEq, Eq, Structural)]
pub enum InputValue {
    Digital(bool),
    Analog(u64),
    Analog2d(u64, u64),
}

impl InputValue {
    /// The kind of the value.
    pub open spec fn spec_kind(self) -> InputKind {
        match self {
            InputValue::Digital(_) => InputKind::Digital,
            InputValue::Analog(_) => InputKind::Analog,
            InputValue::Analog2d(_, _) => InputKind::Analog2d,
        }
    }

    pub fn kind(&self) -> (r: InputKind)
        ensures
            r == self.spec_kind(),
    {
        match self {
            InputValue::Digital(_) => InputKind::Digital,
            InputValue::Analog(_) => InputKind::Analog,
            InputValue::Analog2d(_, _) => InputKind::Analog2d,
        }
    }
}

/// An action that a control set off.
#[derive(Clone, Copy, Debug, PartialEq, Eq, Structural)]
pub struct InputEvent {
    /// The running number of the event.
    pub index: u64,
    /// When the event was queued, in nanoseconds since the manager started.
    pub created_at: u64,
    pub device_id: RawDeviceId,
    pub action: u64,
    pub value: InputValue,
}

/// An action, and the kinds of value that set it off; no mask stands for
/// every kind.
#[derive(Clone, Copy, Debug, PartialEq, Eq, Structural)]
pub struct Binding {
    pub action: u64,
    pub mask: Option<u8>,
}

/// A control: a key, a button, an axis.
pub trait Control: Copy {
    /// The number by which the control is found again.
    spec fn spec_key(&self) -> u64;

    /// The kinds of value that the control reports, as a mask.
    spec fn spec_kind(&self) -> u8;

    fn key(&self) -> (r: u64)
        ensures
            r == self.spec_key(),
    ;

    fn kind(&self) -> (r: u8)
        ensures
            r == self.spec_kind(),
    ;
}

/// A key of the keyboard, by its scan code.
#[derive(Clone, Copy, Debug, PartialEq, Eq, Structural)]
pub struct KeyControl {
    pub code: u32,
}

impl Control for KeyControl {
    open spec fn spec_key(&self) -> u64 {
        self.code as u64
    }

    open spec fn spec_kind(&self) -> u8 {
        1
    }

    fn key(&self) -> u64 {
        self.code as u64
    }

    fn kind(&self) -> u8 {
        1
    }
}

/// A control of the mouse.
#[derive(Clone, Copy, Debug, PartialEq, Eq, Structural)]
pub enum MouseControl {
    Button(u16),
    Wheel,
    Cursor,
}

impl Control for MouseControl {
    open spec fn spec_key(&self) -> u64 {
        match self {
            MouseControl::Button(b) => (2 + *b) as u64,
            MouseControl::Wheel => 0,
            MouseControl::Cursor => 1,
        }
    }

    open spec fn spec_kind(&self) -> u8 {
        match self {
            MouseControl::Button(_) => 1,
            MouseControl::Wheel => 4,
            MouseControl::Cursor => 4,
        }
    }

    fn key(&self) -> u64 {
        match self {
            MouseControl::Button(b) => 2 + *b as u64,
            MouseControl::Wheel => 0,
            MouseControl::Cursor => 1,
        }
    }

    fn kind(&self) -> u8 {
        match self {
            MouseControl::Button(_) => 1,
            MouseControl::Wheel => 4,
            MouseControl::Cursor => 4,
        }
    }
}

/// A control of a gamepad.
#[derive(Clone, Copy, Debug, PartialEq, Eq, Structural)]
pub enum GamepadControl {
    Connection,
    Button(u16),
    Axis(u16),
}

impl Control for GamepadControl {
    open spec fn spec_key(&self) -> u64 {
        match self {
            GamepadControl::Connection => 0,
            GamepadControl::Button(b) => (1 + *b) as u64,
            GamepadControl::Axis(a) => (0x1_0001 + *a) as u64,
        }
    }

    open spec fn spec_kind(&self) -> u8 {
        match self {
            GamepadControl::Connection => 1,
            GamepadControl::Button(_) => 3,
            GamepadControl::Axis(_) => 2,
        }
    }

    fn key(&self) -> u64 {
        match self {
            GamepadControl::Connection => 0,
            GamepadControl::Button(b) => 1 + *b as u64,
            GamepadControl::Axis(a) => 0x1_0001 + *a as u64,
        }
    }

    fn kind(&self) -> u8 {
        match self {
            GamepadControl::Connection => 1,
            GamepadControl::Button(_) => 3,
            GamepadControl::Axis(_) => 2,
        }
    }
}

/// An event as a device reports it.
pub trait RawEvent {
    type Control: Control;

    spec fn spec_device_id(&self) -> RawDeviceId;

    spec fn spec_control(&self) -> Self::Control;

    spec fn spec_input_value(&self) -> InputValue;

    fn get_device_id(&self) -> (r: RawDeviceId)
        ensures
            r == self.spec_device_id(),
    ;

    fn get_control(&self) -> (r: Self::Control)
        ensures
            r == self.spec_control(),
    ;

    fn get_input_value(&self) -> (r: InputValue)
        ensures
            r == self.spec_input_value(),
    ;
}

/// A key that went down or up.
#[derive(Clone, Copy, Debug, PartialEq, Eq, Structural)]
pub struct RawKeyboardEvent {
    pub device_id: u64,
    pub key: KeyControl,
    pub pressed: bool,
}

impl RawEvent for RawKeyboardEvent {
    type Control = KeyControl;

    open spec fn spec_device_id(&self) -> RawDeviceId {
        RawDeviceId::Keyboard(self.device_id)
    }

    open spec fn spec_control(&self) -> KeyControl {
        self.key
    }

    open spec fn spec_input_value(&self) -> InputValue {
        InputValue::Digital(self.pressed)
    }

    fn get_device_id(&self) -> RawDeviceId {
        RawDeviceId::Keyboard(self.device_id)
    }

    fn get_control(&self) -> KeyControl {
        self.key
    }

    fn get_input_value(&self) -> InputValue {
        InputValue::Digital(self.pressed)
    }
}

/// What happened to the mouse.
#[derive(Clone, Copy, Debug, PartialEq, Eq, Structural)]
pub enum RawMouseEventData {
    Button(u16, bool),
    Wheel(u64, u64),
    Move(u64, u64),
    Entered,
    Left,
}

/// Something that happened to the mouse.
#[derive(Clone, Copy, Debug, PartialEq, Eq, Structural)]
pub struct RawMouseEvent {
    pub device_id: u64,
    pub data: RawMouseEventData,
}

impl RawEvent for RawMouseEvent {
    type Control = MouseControl;

    open spec fn spec_device_id(&self) -> RawDeviceId {
        RawDeviceId::Mouse(self.device_id)
    }

    open spec fn spec_control(&self) -> MouseControl {
        match self.data {
            RawMouseEventData::Button(button, _) => MouseControl::Button(button),
            RawMouseEventData::Wheel(_, _) => MouseControl::Wheel,
            RawMouseEventData::Move(_, _) => MouseControl::Cursor,
            RawMouseEventData::Entered => MouseControl::Cursor,
            RawMouseEventData::Left => MouseControl::Cursor,
        }
    }

    open spec fn spec_input_value(&self) -> InputValue {
        match self.data {
            RawMouseEventData::Button(_, pressed) => InputValue::Digital(pressed),
            RawMouseEventData::Wheel(x, y) => InputValue::Analog2d(x, y),
            RawMouseEventData::Move(x, y) => InputValue::Analog2d(x, y),
            RawMouseEventData::Entered => InputValue::Digital(true),
            RawMouseEventData::Left => InputValue::Digital(false),
        }
    }

    fn get_device_id(&self) -> RawDeviceId {
        RawDeviceId::Mouse(self.device_id)
    }

    fn get_control(&self) -> MouseControl {
        match self.data {
            RawMouseEventData::Button(button, _) => MouseControl::Button(button),
            RawMouseEventData::Wheel(_, _) => MouseControl::Wheel,
            RawMouseEventData::Move(_, _) => MouseControl::Cursor,
            RawMouseEventData::Entered => MouseControl::Cursor,
            RawMouseEventData::Left => MouseControl::Cursor,
        }
    }

    fn get_input_value(&self) -> InputValue {
        match self.data {
            RawMouseEventData::Button(_, pressed) => InputValue::Digital(pressed),
            RawMouseEventData::Wheel(x, y) => InputValue::Analog2d(x, y),
            RawMouseEventData::Move(x, y) => InputValue::Analog2d(x, y),
            RawMouseEventData::Entered => InputValue::Digital(true),
            RawMouseEventData::Left => InputValue::Digital(false),
        }
    }
}

/// What happened to a gamepad.
#[derive(Clone, Copy, Debug, PartialEq, Eq, Structural)]
pub enum GamepadEventType {
    ButtonPressed(u16),
    ButtonReleased(u16),
    ButtonChanged(u16, u64),
    AxisChanged(u16, u64),
    Connected,
    Disconnected,
}

/// Something that happened to a gamepad.
#[derive(Clone, Copy, Debug, PartialEq, Eq, Structural)]
pub struct RawGamepadEvent {
    pub device_id: usize,
    pub event: GamepadEventType,
}

impl RawEvent for RawGamepadEvent {
    type Control = GamepadControl;

    open spec fn spec_device_id(&self) -> RawDeviceId {
        RawDeviceId::Gamepad(self.device_id)
    }

    open spec fn spec_control(&self) -> GamepadControl {
        match self.event {
            GamepadEventType::ButtonPressed(button) => GamepadControl::Button(button),
            GamepadEventType::ButtonReleased(button) => GamepadControl::Button(button),
            GamepadEventType::ButtonChanged(button, _) => GamepadControl::Button(button),
            GamepadEventType::AxisChanged(axis, _) => GamepadControl::Axis(axis),
            GamepadEventType::Connected => GamepadControl::Connection,
            GamepadEventType::Disconnected => GamepadControl::Connection,
        }
    }

    open spec fn spec_input_value(&self) -> InputValue {
        match self.event {
            GamepadEventType::ButtonPressed(_) => InputValue::Digital(true),
            GamepadEventType::ButtonReleased(_) => InputValue::Digital(false),
            GamepadEventType::ButtonChanged(_, value) => InputValue::Analog(value),
            GamepadEventType::AxisChanged(_, value) => InputValue::Analog(value),
            GamepadEventType::Connected => InputValue::Digital(true),
            GamepadEventType::Disconnected => InputValue::Digital(false),
        }
    }

    fn get_device_id(&self) -> RawDeviceId {
        RawDeviceId::Gamepad(self.device_id)
    }

    fn get_control(&self) -> GamepadControl {
        match self.event {
            GamepadEventType::ButtonPressed(button) => GamepadControl::Button(button),
            GamepadEventType::ButtonReleased(button) => GamepadControl::Button(button),
            GamepadEventType::ButtonChanged(button, _) => GamepadControl::Button(button),
            GamepadEventType::AxisChanged(axis, _) => GamepadControl::Axis(axis),
            GamepadEventType::Connected => GamepadControl::Connection,
            GamepadEventType::Disconnected => GamepadControl::Connection,
        }
    }

    fn get_input_value(&self) -> InputValue {
        match self.event {
            GamepadEventType::ButtonPressed(_) => InputValue::Digital(true),
            GamepadEventType::ButtonReleased(_) => InputValue::Digital(false),
            GamepadEventType::ButtonChanged(_, value) => InputValue::Analog(value),
            GamepadEventType::AxisChanged(_, value) => InputValue::Analog(value),
            GamepadEventType::Connected => InputValue::Digital(true),
            GamepadEventType::Disconnected => InputValue::Digital(false),
        }
    }
}

/// A value of the kind `kind` sets off a binding with the mask `mask`.
pub open spec fn passes(mask: Option<u8>, kind: InputKind) -> bool {
    match mask {
        Some(m) => m & kind_bit(kind) != 0,
        None => true,
    }
}

/// The running number after `index`; after the largest comes zero.
pub open spec fn next_index_after(index: u64) -> u64 {
    if index == u64::MAX {
        0
    } else {
        (index + 1) as u64
    }
}

/// The queue and the running number after each of `bindings` that the
/// value sets off has queued its event, in order.
pub open spec fn queued(
    events: Seq<InputEvent>,
    next_index: u64,
    bindings: Seq<Binding>,
    created_at: u64,
    device_id: RawDeviceId,
    value: InputValue,
) -> (Seq<InputEvent>, u64)
    decreases bindings.len(),
{
    if bindings.len() == 0 {
        (events, next_index)
    } else if passes(bindings[0].mask, value.spec_kind()) {
        queued(
            events.push(
                InputEvent {
                    index: next_index,
                    created_at,
                    device_id,
                    action: bindings[0].action,
                    value,
                },
            ),
            next_index_after(next_index),
            bindings.drop_first(),
            created_at,
            device_id,
            value,
        )
    } else {
        queued(events, next_index, bindings.drop_first(), created_at, device_id, value)
    }
}

/// The bindings that an event of the control `key` is looked up in: the one
/// bound to the control, if any, then every wildcard.
pub open spec fn bindings_for(
    control_map: Map<u64, Binding>,
    wildcards: Seq<Binding>,
    key: u64,
) -> Seq<Binding> {
    if control_map.contains_key(key) {
        seq![control_map[key]] + wildcards
    } else {
        wildcards
    }
}

/// Maps controls to actions and queues the events that raw events set off.
pub struct InputManager {
    control_map: HashMap<u64, Binding>,
    control_map_rev: HashMap<u64, u64>,
    wildcard_actions: Vec<Binding>,
    input_events: Vec<InputEvent>,
    next_index: u64,
}

/// What an [`InputManager`] holds.
pub struct InputManagerSpec {
    pub control_map: Map<u64, Binding>,
    pub control_map_rev: Map<u64, u64>,
    pub wildcard_actions: Seq<Binding>,
    pub input_events: Seq<InputEvent>,
    pub next_index: u64,
}

impl View for InputManager {
    type V = InputManagerSpec;

    closed spec fn view(&self) -> InputManagerSpec {
        InputManagerSpec {
            control_map: self.control_map@,
            control_map_rev: self.control_map_rev@,
            wildcard_actions: self.wildcard_actions@,
            input_events: self.input_events@,
            next_index: self.next_index,
        }
    }
}

impl InputManager {
    /// A manager without bindings and without events.
    pub fn new() -> (r: InputManager)
        ensures
            r@ == (InputManagerSpec {
                control_map: Map::empty(),
                control_map_rev: Map::empty(),
                wildcard_actions: Seq::empty(),
                input_events: Seq::empty(),
                next_index: 0,
            }),
    {
        InputManager {
            control_map: HashMap::new(),
            control_map_rev: HashMap::new(),
            wildcard_actions: Vec::new(),
            input_events: Vec::new(),
            next_index: 0,
        }
    }

    /// Binds the control `control` to `action` for values of the kinds in
    /// `mask`, in place of whatever the control was bound to.
    pub fn set_action(&mut self, control: u64, action: u64, mask: Option<u8>)
        ensures
            final(self)@ == (InputManagerSpec {
                control_map: old(self)@.control_map.insert(control, Binding { action, mask }),
                control_map_rev: old(self)@.control_map_rev.insert(action, control),
                ..old(self)@
            }),
    {
        broadcast use vstd::std_specs::hash::group_hash_axioms;

        self.control_map.insert(control, Binding { action, mask });
        self.control_map_rev.insert(action, control);
    }

    /// Adds an action that every control sets off.
    pub fn set_wildcard_action(&mut self, action: u64, mask: Option<u8>)
        ensures
            final(self)@ == (InputManagerSpec {
                wildcard_actions: old(self)@.wildcard_actions.push(Binding { action, mask }),
                ..old(self)@
            }),
    {
        self.wildcard_actions.push(Binding { action, mask });
    }

    /// What the control `control` is bound to.
    pub fn get_action(&self, control: u64) -> (r: Option<Binding>)
        ensures
            r == (if self@.control_map.contains_key(control) {
                Some(self@.control_map[control])
            } else {
                None
            }),
    {
        broadcast use vstd::std_specs::hash::group_hash_axioms;

        match self.control_map.get(&control) {
            Some(b) => Some(*b),
            None => None,
        }
    }

    /// The control that was last bound to `action`.
    pub fn get_control(&self, action: u64) -> (r: Option<u64>)
        ensures
            r == (if self@.control_map_rev.contains_key(action) {
                Some(self@.control_map_rev[action])
            } else {
                None
            }),
    {
        broadcast use vstd::std_specs::hash::group_hash_axioms;

        match self.control_map_rev.get(&action) {
            Some(c) => Some(*c),
            None => None,
        }
    }

    /// Queues the event of `binding` where the value is of a kind that sets
    /// it off.
    pub fn _push_input_event(
        &mut self,
        created_at: u64,
        device_id: RawDeviceId,
        binding: Binding,
        value: InputValue,
    ) -> (r: bool)
        ensures
            r == passes(binding.mask, value.spec_kind()),
            final(self)@ == (if r {
                InputManagerSpec {
                    input_events: old(self)@.input_events.push(
                        InputEvent {
                            index: old(self)@.next_index,
                            created_at,
                            device_id,
                            action: binding.action,
                            value,
                        },
                    ),
                    next_index: next_index_after(old(self)@.next_index),
                    ..old(self)@
                }
            } else {
                old(self)@
            }),
    {
        match binding.mask {
            Some(mask) => {
                if mask & value.kind().bit() == 0 {
                    return false;
                }
            },
            None => {},
        }
        let index = self.next_index;
        self.next_index = if index == u64::MAX {
            0
        } else {
            index + 1
        };
        self.input_events.push(
            InputEvent { index, created_at, device_id, action: binding.action, value },
        );
        true
    }

    /// Queues the events that `raw_event` sets off: that of the action bound
    /// to its control, then those of the wildcard actions, each only where
    /// the value is of a kind in its mask. Returns how many were queued.
    pub fn update<E: RawEvent>(&mut self, raw_event: &E, created_at: u64) -> (r: usize)
        ensures
            ({
                let bindings = bindings_for(
                    old(self)@.control_map,
                    old(self)@.wildcard_actions,
                    raw_event.spec_control().spec_key(),
                );
                let after = queued(
                    old(self)@.input_events,
                    old(self)@.next_index,
                    bindings,
                    created_at,
                    raw_event.spec_device_id(),
                    raw_event.spec_input_value(),
                );
                &&& final(self)@ == (InputManagerSpec {
                    input_events: after.0,
                    next_index: after.1,
                    ..old(self)@
                })
                &&& r == after.0.len() - old(self)@.input_events.len()
            }),
    {
        let device_id = raw_event.get_device_id();
        let key = raw_event.get_control().key();
        let value = raw_event.get_input_value();
        let ghost bindings = bindings_for(self@.control_map, self@.wildcard_actions, key);
        let ghost target = queued(
            self@.input_events,
            self@.next_index,
            bindings,
            created_at,
            device_id,
            value,
        );
        let mut count: usize = 0;
        match self.get_action(key) {
            Some(binding) => {
                assert(bindings[0] == binding);
                assert(bindings.drop_first() =~= self@.wildcard_actions);
                if self._push_input_event(created_at, device_id, binding, value) {
                    count = 1;
                }
            },
            None => {},
        }
        let n = self.wildcard_actions.len();
        assert(self@.wildcard_actions.subrange(0, n as int) =~= self@.wildcard_actions);
        let mut i: usize = 0;
        while i < n
            invariant
                i <= n,
                n == self@.wildcard_actions.len(),
                self@.wildcard_actions == old(self)@.wildcard_actions,
                self@.control_map == old(self)@.control_map,
                self@.control_map_rev == old(self)@.control_map_rev,
                self@.input_events.len() == old(self)@.input_events.len() + count,
                queued(
                    self@.input_events,
                    self@.next_index,
                    self@.wildcard_actions.subrange(i as int, n as int),
                    created_at,
                    device_id,
                    value,
                ) == target,
            decreases n - i,
        {
            let binding = self.wildcard_actions[i];
            let ghost rest = self@.wildcard_actions.subrange(i as int, n as int);
            assert(rest[0] == binding);
            assert(rest.drop_first() =~= self@.wildcard_actions.subrange(i + 1, n as int));
            if self._push_input_event(created_at, device_id, binding, value) {
                let queue_length = self.input_events.len();
                assert(count < queue_length);
                count = count + 1;
            }
            i = i + 1;
        }
        assert(self@.wildcard_actions.subrange(n as int, n as int) =~= Seq::empty());
        count
    }

    pub fn get_input_event_count(&self) -> (r: usize)
        ensures
            r == self@.input_events.len(),
    {
        self.input_events.len()
    }

    /// The event that was queued `offset` events before the last.
    pub fn get_nth_last_input_event(&self, offset: usize) -> (r: Option<InputEvent>)
        ensures
            r == (if offset < self@.input_events.len() {
                Some(self@.input_events[self@.input_events.len() - 1 - offset])
            } else {
                None
            }),
    {
        if offset >= self.input_events.len() {
            return None;
        }
        Some(self.input_events[self.input_events.len() - 1 - offset])
    }

    /// Empties the queue; the running number goes on.
    pub fn flush_input_events(&mut self)
        ensures
            final(self)@ == (InputManagerSpec { input_events: Seq::empty(), ..old(self)@ }),
    {
        self.input_events.clear();
    }
}

} // verus!
