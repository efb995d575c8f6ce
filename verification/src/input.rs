//! Browser input event translation.
//!
//! Translates browser events (keyboard, mouse, touch, gamepad) to the engine's
//! input state. All decisions happen here; positions and axis values, which are
//! floating point, are applied by the caller as each event's result directs.
use vstd::prelude::*;
use crate::input_state::{
    first_touch_with, mouse_button_slot, ButtonState, InputModel, InputState, TouchPhase, TouchRecord,
    GAMEPAD_AXIS_COUNT, GAMEPAD_BUTTON_COUNT, GAMEPAD_COUNT, MOUSE_BUTTON_COUNT,
};
use crate::text::{
    all_digits, append_str, decimal, digit_char, digit_value, has_prefix, is_digit,
    lemma_parse_decimal_roundtrip, parse_unsigned, parse_unsigned_decimal, starts_with, str_equals,
};

verus! {

/// A keyboard key.
#[derive(Debug, Clone, Copy, PartialEq, Eq, Structural, Hash)]
pub enum KeyCode {
    /// Arrow up
    Up,
    /// Arrow down
    Down,
    /// Arrow left
    Left,
    /// Arrow right
    Right,
    /// Space bar
    Space,
    /// Enter / Return
    Enter,
    /// Escape
    Escape,
    /// Letter key (uppercase ASCII letter)
    Letter(char),
    /// Number key 0-9
    Number(u8),
    /// Function key F1-F12
    Function(u8),
}

/// A mouse button.
#[derive(Debug, Clone, Copy, PartialEq, Eq, Structural)]
pub enum MouseButton {
    /// Primary button
    Left,
    /// Wheel button
    Middle,
    /// Secondary button
    Right,
    /// Extra buttons, numbered from 0
    Extra(u8),
}

/// A gamepad button (standard browser gamepad layout).
#[derive(Debug, Clone, Copy, PartialEq, Eq, Structural)]
pub enum GamepadButton {
    /// Bottom face button (A / Cross)
    South,
    /// Right face button (B / Circle)
    East,
    /// Left face button (X / Square)
    West,
    /// Top face button (Y / Triangle)
    North,
    /// Left shoulder bumper
    LeftBumper,
    /// Right shoulder bumper
    RightBumper,
    /// Select / Back
    Select,
    /// Start / Menu
    Start,
    /// Left stick press
    LeftStick,
    /// Right stick press
    RightStick,
    /// D-pad up
    DPadUp,
    /// D-pad down
    DPadDown,
    /// D-pad left
    DPadLeft,
    /// D-pad right
    DPadRight,
}

/// A gamepad analog axis.
#[derive(Debug, Clone, Copy, PartialEq, Eq, Structural)]
pub enum GamepadAxis {
    /// Left stick horizontal
    LeftStickX,
    /// Left stick vertical
    LeftStickY,
    /// Right stick horizontal
    RightStickX,
    /// Right stick vertical
    RightStickY,
}

/// Input translation errors.
#[derive(Debug, Clone, PartialEq, Eq)]
pub enum InputTranslationError {
    /// Failed to parse input JSON
    InvalidJson(String),
    /// Unknown event type
    UnknownEventType(String),
    /// Invalid event data
    InvalidData(String),
}

impl InputTranslationError {
    /// The error's message text.
    pub open spec fn message_text(&self) -> Seq<char> {
        match self {
            InputTranslationError::InvalidJson(m) => "Failed to parse input JSON: "@ + m@,
            InputTranslationError::UnknownEventType(m) => "Unknown event type: "@ + m@,
            InputTranslationError::InvalidData(m) => "Invalid event data: "@ + m@,
        }
    }

    /// Returns the error message.
    pub fn message(&self) -> (s: String)
        ensures
            s@ == self.message_text(),
    {
        let mut s = String::new();
        match self {
            InputTranslationError::InvalidJson(m) => {
                append_str(&mut s, "Failed to parse input JSON: ");
                append_str(&mut s, m.as_str());
            },
            InputTranslationError::UnknownEventType(m) => {
                append_str(&mut s, "Unknown event type: ");
                append_str(&mut s, m.as_str());
            },
            InputTranslationError::InvalidData(m) => {
                append_str(&mut s, "Invalid event data: ");
                append_str(&mut s, m.as_str());
            },
        }
        assert(s@ =~= self.message_text());
        s
    }
}

/// The key that a JavaScript `KeyboardEvent.code` names: the arrows, Space,
/// Enter and Escape by name, `KeyA`..`KeyZ`, `Digit0`..`Digit9`, and `F1`..`F12`
/// (the number after `F` is read as an unsigned integer, so `F+1` and `F01` also
/// name F1).
pub open spec fn key_of(k: Seq<char>) -> Option<KeyCode> {
    if k == "ArrowUp"@ {
        Some(KeyCode::Up)
    } else if k == "ArrowDown"@ {
        Some(KeyCode::Down)
    } else if k == "ArrowLeft"@ {
        Some(KeyCode::Left)
    } else if k == "ArrowRight"@ {
        Some(KeyCode::Right)
    } else if k == "Space"@ {
        Some(KeyCode::Space)
    } else if k == "Enter"@ {
        Some(KeyCode::Enter)
    } else if k == "Escape"@ {
        Some(KeyCode::Escape)
    } else if has_prefix(k, "Key"@) && k.len() == 4 {
        if 'A' <= k[3] && k[3] <= 'Z' {
            Some(KeyCode::Letter(k[3]))
        } else {
            None
        }
    } else if has_prefix(k, "Digit"@) && k.len() == 6 {
        if is_digit(k[5]) {
            Some(KeyCode::Number(digit_value(k[5]) as u8))
        } else {
            None
        }
    } else if k.len() >= 1 && k[0] == 'F' && k.len() <= 3 {
        match parse_unsigned(k.drop_first(), 255) {
            Some(n) => if 1 <= n <= 12 {
                Some(KeyCode::Function(n as u8))
            } else {
                None
            },
            None => None,
        }
    } else {
        None
    }
}

/// Translates a JavaScript key code to a KeyCode.
///
/// Lengths are counted in characters; since every key name that translates is
/// ASCII, this agrees with counting bytes.
pub fn translate_key(js_key: &str) -> (r: Option<KeyCode>)
    ensures
        r == key_of(js_key@),
{
    if str_equals(js_key, "ArrowUp") {
        return Some(KeyCode::Up);
    }
    if str_equals(js_key, "ArrowDown") {
        return Some(KeyCode::Down);
    }
    if str_equals(js_key, "ArrowLeft") {
        return Some(KeyCode::Left);
    }
    if str_equals(js_key, "ArrowRight") {
        return Some(KeyCode::Right);
    }
    if str_equals(js_key, "Space") {
        return Some(KeyCode::Space);
    }
    if str_equals(js_key, "Enter") {
        return Some(KeyCode::Enter);
    }
    if str_equals(js_key, "Escape") {
        return Some(KeyCode::Escape);
    }
    let len = js_key.unicode_len();
    // Letter keys (KeyA through KeyZ)
    if starts_with(js_key, "Key") && len == 4 {
        let c = js_key.get_char(3);
        if 'A' <= c && c <= 'Z' {
            return Some(KeyCode::Letter(c));
        }
        return None;
    }
    // Number keys (Digit0 through Digit9)
    if starts_with(js_key, "Digit") && len == 6 {
        let c = js_key.get_char(5);
        if '0' <= c && c <= '9' {
            let n: u8 = (c as u32 - '0' as u32) as u8;
            return Some(KeyCode::Number(n));
        }
        return None;
    }
    // Function keys (F1 through F12)
    if len >= 1 && js_key.get_char(0) == 'F' && len <= 3 {
        let rest = js_key.substring_char(1, len);
        assert(rest@ =~= js_key@.drop_first());
        match parse_unsigned_decimal(rest, 255) {
            Some(n) => {
                if 1 <= n && n <= 12 {
                    return Some(KeyCode::Function(n as u8));
                }
                return None;
            },
            None => {
                return None;
            },
        }
    }
    None
}

/// The mouse button that a JavaScript button index names: 0 left, 1 middle,
/// 2 right, 3 and up the extra buttons from 0.
pub open spec fn mouse_button_of(button: u8) -> MouseButton {
    if button == 0 {
        MouseButton::Left
    } else if button == 1 {
        MouseButton::Middle
    } else if button == 2 {
        MouseButton::Right
    } else {
        MouseButton::Extra((button - 3) as u8)
    }
}

/// Translates a JavaScript mouse button index to a MouseButton
/// (0 left, 1 middle, 2 right, 3 and up the extra buttons from 0).
pub fn translate_mouse_button(button: u8) -> (b: MouseButton)
    ensures
        b == mouse_button_of(button),
        button == 0 ==> b == MouseButton::Left,
        button == 1 ==> b == MouseButton::Middle,
        button == 2 ==> b == MouseButton::Right,
        button >= 3 ==> b == MouseButton::Extra((button - 3) as u8),
{
    match button {
        0 => MouseButton::Left,
        1 => MouseButton::Middle,
        2 => MouseButton::Right,
        n => MouseButton::Extra(n - 3),
    }
}

/// The gamepad button that a standard-layout button index names.
pub open spec fn gamepad_button_of(button: u8) -> Option<GamepadButton> {
    if button == 0 {
        Some(GamepadButton::South)
    } else if button == 1 {
        Some(GamepadButton::East)
    } else if button == 2 {
        Some(GamepadButton::West)
    } else if button == 3 {
        Some(GamepadButton::North)
    } else if button == 4 {
        Some(GamepadButton::LeftBumper)
    } else if button == 5 {
        Some(GamepadButton::RightBumper)
    } else if button == 8 {
        Some(GamepadButton::Select)
    } else if button == 9 {
        Some(GamepadButton::Start)
    } else if button == 10 {
        Some(GamepadButton::LeftStick)
    } else if button == 11 {
        Some(GamepadButton::RightStick)
    } else if button == 12 {
        Some(GamepadButton::DPadUp)
    } else if button == 13 {
        Some(GamepadButton::DPadDown)
    } else if button == 14 {
        Some(GamepadButton::DPadLeft)
    } else if button == 15 {
        Some(GamepadButton::DPadRight)
    } else {
        None
    }
}

/// Translates a JavaScript gamepad button index to a GamepadButton.
pub fn translate_gamepad_button(button: u8) -> (r: Option<GamepadButton>)
    ensures
        r == gamepad_button_of(button),
{
    match button {
        0 => Some(GamepadButton::South),
        1 => Some(GamepadButton::East),
        2 => Some(GamepadButton::West),
        3 => Some(GamepadButton::North),
        4 => Some(GamepadButton::LeftBumper),
        5 => Some(GamepadButton::RightBumper),
        8 => Some(GamepadButton::Select),
        9 => Some(GamepadButton::Start),
        10 => Some(GamepadButton::LeftStick),
        11 => Some(GamepadButton::RightStick),
        12 => Some(GamepadButton::DPadUp),
        13 => Some(GamepadButton::DPadDown),
        14 => Some(GamepadButton::DPadLeft),
        15 => Some(GamepadButton::DPadRight),
        _ => None,
    }
}

/// Translates a JavaScript gamepad axis index to a GamepadAxis.
pub fn translate_gamepad_axis(axis: u8) -> (r: Option<GamepadAxis>)
    ensures
        axis == 0 ==> r == Some(GamepadAxis::LeftStickX),
        axis == 1 ==> r == Some(GamepadAxis::LeftStickY),
        axis == 2 ==> r == Some(GamepadAxis::RightStickX),
        axis == 3 ==> r == Some(GamepadAxis::RightStickY),
        axis > 3 ==> r is None,
{
    match axis {
        0 => Some(GamepadAxis::LeftStickX),
        1 => Some(GamepadAxis::LeftStickY),
        2 => Some(GamepadAxis::RightStickX),
        3 => Some(GamepadAxis::RightStickY),
        _ => None,
    }
}

/// The internal mouse button slot of a JavaScript mouse button index: left 0,
/// right 1, middle 2 (JavaScript numbers middle 1 and right 2); extra buttons
/// keep their index.
pub open spec fn mouse_slot(button: int) -> int {
    if button == 1 {
        2
    } else if button == 2 {
        1
    } else {
        button
    }
}

/// Maps a JavaScript mouse button index to the internal mouse button slot.
pub fn mouse_button_index(button: u8) -> (i: usize)
    ensures
        i == mouse_slot(button as int),
{
    match button {
        0 => 0,
        1 => 2,
        2 => 1,
        n => n as usize,
    }
}

/// Every letter key name `Key<L>` and digit key name `Digit<d>` translates to
/// that letter or digit.
pub proof fn lemma_key_names(c: char)
    ensures
        'A' <= c <= 'Z' ==> key_of("Key"@.push(c)) == Some(KeyCode::Letter(c)),
        '0' <= c <= '9' ==> key_of("Digit"@.push(c)) == Some(KeyCode::Number(digit_value(c) as u8)),
{
    reveal_strlit("Key");
    reveal_strlit("Digit");
    reveal_strlit("ArrowUp");
    reveal_strlit("ArrowDown");
    reveal_strlit("ArrowLeft");
    reveal_strlit("ArrowRight");
    reveal_strlit("Space");
    reveal_strlit("Enter");
    reveal_strlit("Escape");
    let k = "Key"@.push(c);
    assert(k.subrange(0, 3) =~= "Key"@);
    assert(k.len() == 4);
    assert(k != "ArrowUp"@ && k != "ArrowDown"@ && k != "ArrowLeft"@ && k != "ArrowRight"@);
    assert(k != "Space"@ && k != "Enter"@ && k != "Escape"@);
    let d = "Digit"@.push(c);
    assert(d.subrange(0, 5) =~= "Digit"@);
    assert(d.len() == 6);
    assert(d[0] == 'D');
    assert(d != "ArrowUp"@ && d != "ArrowDown"@ && d != "ArrowLeft"@ && d != "ArrowRight"@);
    assert(d != "Space"@ && d != "Enter"@ && d != "Escape"@);
    assert(!has_prefix(d, "Key"@));
}

/// The mouse slot mapping only swaps the middle and right buttons: it is its
/// own inverse and sends distinct buttons to distinct slots.
pub proof fn lemma_mouse_slot_involution(a: int, b: int)
    ensures
        mouse_slot(mouse_slot(a)) == a,
        a != b ==> mouse_slot(a) != mouse_slot(b),
{
}

/// The discrete data of a browser input event (positions and axis values are
/// kept by the caller).
#[derive(Debug, Clone)]
pub enum EventData {
    /// Keyboard event data: the JavaScript key code (e.g. "KeyW", "Space")
    Key {
        /// JavaScript key code
        key: String,
    },
    /// Gamepad axis event data
    GamepadAxis {
        /// Gamepad index
        gamepad: u8,
        /// Axis index
        axis: u8,
    },
    /// Touch event data
    Touch {
        /// Touch identifier
        id: u32,
    },
    /// Mouse button event data
    MouseButton {
        /// Button index (0=left, 1=middle, 2=right)
        button: u8,
    },
    /// Gamepad button event data
    GamepadButton {
        /// Gamepad index
        gamepad: u8,
        /// Button index
        button: u8,
    },
    /// Mouse move event data
    MouseMove,
}

/// A browser input event: its type name and its discrete data.
#[derive(Debug, Clone)]
pub struct InputEvent {
    /// Type of the event (e.g. "KeyDown", "MouseMove")
    pub event_type: String,
    /// Event-specific data
    pub data: EventData,
}

/// What the caller must still do with the event's position or axis value.
#[derive(Debug, Clone, Copy, PartialEq, Eq, Structural)]
pub enum PointerUpdate {
    /// Nothing
    Nothing,
    /// Move the mouse to the event's position; the mouse delta is the move
    MouseMoved,
    /// Place the mouse at the event's position
    MousePlaced,
    /// A touch was added last in the touch list, at the event's position
    TouchStarted,
    /// The touch at `index` moved to the event's position
    TouchMoved {
        /// Position of the touch in the touch list
        index: usize,
    },
    /// Axis `axis` of gamepad `gamepad` takes the event's value
    AxisSet {
        /// Gamepad index
        gamepad: usize,
        /// Axis index
        axis: usize,
    },
}

/// The event types that the platform understands.
pub open spec fn known_event_type(t: Seq<char>) -> bool {
    ||| t == "KeyDown"@
    ||| t == "KeyUp"@
    ||| t == "MouseMove"@
    ||| t == "MouseDown"@
    ||| t == "MouseUp"@
    ||| t == "TouchStart"@
    ||| t == "TouchMove"@
    ||| t == "TouchEnd"@
    ||| t == "TouchCancel"@
    ||| t == "GamepadButtonDown"@
    ||| t == "GamepadButtonUp"@
    ||| t == "GamepadAxisMove"@
    ||| t == "GamepadConnected"@
    ||| t == "GamepadDisconnected"@
}

/// A key event: a key that is not held goes down, any key goes up; keys that do
/// not translate are ignored.
pub open spec fn key_effect(m: InputModel, d: EventData, down: bool) -> (InputModel, PointerUpdate) {
    match d {
        EventData::Key { key } => match key_of(key@) {
            Some(c) => if down {
                if !m.key(c).down() {
                    (m.with_key(c, ButtonState::JustPressed), PointerUpdate::Nothing)
                } else {
                    (m, PointerUpdate::Nothing)
                }
            } else {
                (m.with_key(c, ButtonState::JustReleased), PointerUpdate::Nothing)
            },
            None => (m, PointerUpdate::Nothing),
        },
        _ => (m, PointerUpdate::Nothing),
    }
}

/// A mouse button event: the mouse is placed at the event, and the button's slot
/// takes the new state when the slot exists.
pub open spec fn mouse_button_effect(m: InputModel, d: EventData, s: ButtonState) -> (InputModel, PointerUpdate) {
    match d {
        EventData::MouseButton { button } => {
            let idx = mouse_slot(button as int);
            if idx < MOUSE_BUTTON_COUNT {
                (m.with_mouse(idx, s), PointerUpdate::MousePlaced)
            } else {
                (m, PointerUpdate::MousePlaced)
            }
        },
        _ => (m, PointerUpdate::Nothing),
    }
}

/// A touch event that changes the phase of the first touch with the event's id.
pub open spec fn touch_phase_effect(m: InputModel, d: EventData, phase: TouchPhase, moved: bool) -> (InputModel, PointerUpdate) {
    match d {
        EventData::Touch { id } => match first_touch_with(m.touches, id) {
            Some(i) => (
                m.with_touches(m.touches.update(i as int, TouchRecord { id, phase })),
                if moved { PointerUpdate::TouchMoved { index: i } } else { PointerUpdate::Nothing },
            ),
            None => (m, PointerUpdate::Nothing),
        },
        _ => (m, PointerUpdate::Nothing),
    }
}

/// A gamepad button event on a known gamepad and button; pressing also marks the
/// gamepad connected.
pub open spec fn pad_button_effect(m: InputModel, d: EventData, down: bool) -> (InputModel, PointerUpdate) {
    match d {
        EventData::GamepadButton { gamepad, button } => {
            if gamepad < GAMEPAD_COUNT {
                match gamepad_button_of(button) {
                    Some(b) => if down {
                        (m.with_pad_button(gamepad as int, b.position(), ButtonState::JustPressed)
                            .with_connected(gamepad as int, true), PointerUpdate::Nothing)
                    } else {
                        (m.with_pad_button(gamepad as int, b.position(), ButtonState::JustReleased),
                            PointerUpdate::Nothing)
                    },
                    None => (m, PointerUpdate::Nothing),
                }
            } else {
                (m, PointerUpdate::Nothing)
            }
        },
        _ => (m, PointerUpdate::Nothing),
    }
}

/// What an event of a known type does to the input state, and what the caller
/// still has to do with its position or value. Data of the wrong shape for the
/// event type is ignored.
pub open spec fn event_effect(m: InputModel, t: Seq<char>, d: EventData) -> (InputModel, PointerUpdate) {
    if t == "KeyDown"@ {
        key_effect(m, d, true)
    } else if t == "KeyUp"@ {
        key_effect(m, d, false)
    } else if t == "MouseMove"@ {
        match d {
            EventData::MouseMove => (m, PointerUpdate::MouseMoved),
            _ => (m, PointerUpdate::Nothing),
        }
    } else if t == "MouseDown"@ {
        mouse_button_effect(m, d, ButtonState::JustPressed)
    } else if t == "MouseUp"@ {
        mouse_button_effect(m, d, ButtonState::JustReleased)
    } else if t == "TouchStart"@ {
        match d {
            EventData::Touch { id } => (
                m.with_touches(m.touches.push(TouchRecord { id, phase: TouchPhase::Started })),
                PointerUpdate::TouchStarted,
            ),
            _ => (m, PointerUpdate::Nothing),
        }
    } else if t == "TouchMove"@ {
        touch_phase_effect(m, d, TouchPhase::Moved, true)
    } else if t == "TouchEnd"@ {
        touch_phase_effect(m, d, TouchPhase::Ended, false)
    } else if t == "TouchCancel"@ {
        touch_phase_effect(m, d, TouchPhase::Cancelled, false)
    } else if t == "GamepadButtonDown"@ {
        pad_button_effect(m, d, true)
    } else if t == "GamepadButtonUp"@ {
        pad_button_effect(m, d, false)
    } else if t == "GamepadAxisMove"@ {
        match d {
            EventData::GamepadAxis { gamepad, axis } => if gamepad < GAMEPAD_COUNT && axis < GAMEPAD_AXIS_COUNT {
                (m.with_connected(gamepad as int, true),
                    PointerUpdate::AxisSet { gamepad: gamepad as usize, axis: axis as usize })
            } else {
                (m, PointerUpdate::Nothing)
            },
            _ => (m, PointerUpdate::Nothing),
        }
    } else if t == "GamepadConnected"@ || t == "GamepadDisconnected"@ {
        match d {
            EventData::GamepadButton { gamepad, button } => if gamepad < GAMEPAD_COUNT {
                (m.with_connected(gamepad as int, t == "GamepadConnected"@), PointerUpdate::Nothing)
            } else {
                (m, PointerUpdate::Nothing)
            },
            _ => (m, PointerUpdate::Nothing),
        }
    } else {
        (m, PointerUpdate::Nothing)
    }
}

fn process_key(event: &InputEvent, state: &mut InputState, down: bool) -> (r: PointerUpdate)
    ensures
        (final(state)@, r) == key_effect(old(state)@, event.data, down),
{
    if let EventData::Key { key } = &event.data {
        if let Some(code) = translate_key(key.as_str()) {
            if down {
                let current = state.key(code);
                if !current.is_down() {
                    state.set_key(code, ButtonState::JustPressed);
                }
            } else {
                state.set_key(code, ButtonState::JustReleased);
            }
        }
    }
    PointerUpdate::Nothing
}

fn process_mouse_button(event: &InputEvent, state: &mut InputState, s: ButtonState) -> (r: PointerUpdate)
    ensures
        (final(state)@, r) == mouse_button_effect(old(state)@, event.data, s),
{
    if let EventData::MouseButton { button } = &event.data {
        let idx = mouse_button_index(*button);
        if idx < MOUSE_BUTTON_COUNT {
            state.set_mouse_slot(idx, s);
        }
        PointerUpdate::MousePlaced
    } else {
        PointerUpdate::Nothing
    }
}

fn process_touch_phase(event: &InputEvent, state: &mut InputState, phase: TouchPhase, moved: bool) -> (r: PointerUpdate)
    ensures
        (final(state)@, r) == touch_phase_effect(old(state)@, event.data, phase, moved),
{
    if let EventData::Touch { id } = &event.data {
        if let Some(i) = state.find_touch(*id) {
            state.set_touch_phase(i, phase);
            if moved {
                return PointerUpdate::TouchMoved { index: i };
            }
        }
    }
    PointerUpdate::Nothing
}

fn process_pad_button(event: &InputEvent, state: &mut InputState, down: bool) -> (r: PointerUpdate)
    ensures
        (final(state)@, r) == pad_button_effect(old(state)@, event.data, down),
{
    if let EventData::GamepadButton { gamepad, button } = &event.data {
        let gp_idx = *gamepad as usize;
        if gp_idx < GAMEPAD_COUNT {
            if let Some(btn) = translate_gamepad_button(*button) {
                let btn_idx = btn.index();
                if down {
                    state.set_gamepad_button(gp_idx, btn_idx, ButtonState::JustPressed);
                    state.set_gamepad_connected(gp_idx, true);
                } else {
                    state.set_gamepad_button(gp_idx, btn_idx, ButtonState::JustReleased);
                }
            }
        }
    }
    PointerUpdate::Nothing
}

/// Processes a single browser input event.
///
/// A known event type updates the state as [`event_effect`] says and tells the
/// caller what remains to do with the event's position or value; an unknown event
/// type is an error and leaves the state unchanged.
pub fn process_single_event(event: &InputEvent, state: &mut InputState) -> (r: Result<PointerUpdate, InputTranslationError>)
    ensures
        known_event_type(event.event_type@) ==> (r matches Ok(u)
            && (final(state)@, u) == event_effect(old(state)@, event.event_type@, event.data)),
        !known_event_type(event.event_type@) ==> (r matches Err(e)
            && e matches InputTranslationError::UnknownEventType(t) && t@ == event.event_type@
            && final(state)@ == old(state)@),
{
    let t = event.event_type.as_str();
    if str_equals(t, "KeyDown") {
        Ok(process_key(event, state, true))
    } else if str_equals(t, "KeyUp") {
        Ok(process_key(event, state, false))
    } else if str_equals(t, "MouseMove") {
        if let EventData::MouseMove = &event.data {
            Ok(PointerUpdate::MouseMoved)
        } else {
            Ok(PointerUpdate::Nothing)
        }
    } else if str_equals(t, "MouseDown") {
        Ok(process_mouse_button(event, state, ButtonState::JustPressed))
    } else if str_equals(t, "MouseUp") {
        Ok(process_mouse_button(event, state, ButtonState::JustReleased))
    } else if str_equals(t, "TouchStart") {
        if let EventData::Touch { id } = &event.data {
            state.push_touch(TouchRecord { id: *id, phase: TouchPhase::Started });
            Ok(PointerUpdate::TouchStarted)
        } else {
            Ok(PointerUpdate::Nothing)
        }
    } else if str_equals(t, "TouchMove") {
        Ok(process_touch_phase(event, state, TouchPhase::Moved, true))
    } else if str_equals(t, "TouchEnd") {
        Ok(process_touch_phase(event, state, TouchPhase::Ended, false))
    } else if str_equals(t, "TouchCancel") {
        Ok(process_touch_phase(event, state, TouchPhase::Cancelled, false))
    } else if str_equals(t, "GamepadButtonDown") {
        Ok(process_pad_button(event, state, true))
    } else if str_equals(t, "GamepadButtonUp") {
        Ok(process_pad_button(event, state, false))
    } else if str_equals(t, "GamepadAxisMove") {
        if let EventData::GamepadAxis { gamepad, axis } = &event.data {
            let gp_idx = *gamepad as usize;
            if gp_idx < GAMEPAD_COUNT {
                if let Some(_) = translate_gamepad_axis(*axis) {
                    state.set_gamepad_connected(gp_idx, true);
                    return Ok(PointerUpdate::AxisSet { gamepad: gp_idx, axis: *axis as usize });
                }
            }
        }
        Ok(PointerUpdate::Nothing)
    } else if str_equals(t, "GamepadConnected") || str_equals(t, "GamepadDisconnected") {
        let connected = str_equals(t, "GamepadConnected");
        if let EventData::GamepadButton { gamepad, .. } = &event.data {
            let gp_idx = *gamepad as usize;
            if gp_idx < GAMEPAD_COUNT {
                state.set_gamepad_connected(gp_idx, connected);
            }
        }
        Ok(PointerUpdate::Nothing)
    } else {
        let mut name = String::new();
        append_str(&mut name, t);
        assert(name@ =~= event.event_type@);
        Err(InputTranslationError::UnknownEventType(name))
    }
}

} // verus!

verus! {

/// What a sequence of events of known types does to the input state, in order,
/// and the pointer update of each event.
pub open spec fn events_effect(m: InputModel, evs: Seq<InputEvent>) -> (InputModel, Seq<PointerUpdate>)
    decreases evs.len(),
{
    if evs.len() == 0 {
        (m, Seq::empty())
    } else {
        let before = events_effect(m, evs.drop_last());
        let step = event_effect(before.0, evs.last().event_type@, evs.last().data);
        (step.0, before.1.push(step.1))
    }
}

/// Whether every event has a known type.
pub open spec fn all_known(evs: Seq<InputEvent>) -> bool {
    forall|i: int| 0 <= i < evs.len() ==> known_event_type(#[trigger] evs[i].event_type@)
}

/// Whether `k` is the position of the first event of an unknown type.
pub open spec fn is_first_unknown(evs: Seq<InputEvent>, k: int) -> bool {
    &&& 0 <= k < evs.len()
    &&& all_known(evs.take(k))
    &&& !known_event_type(evs[k].event_type@)
}

/// The position of the first event of an unknown type, where there is one.
pub open spec fn first_unknown(evs: Seq<InputEvent>) -> int {
    choose|k: int| is_first_unknown(evs, k)
}

proof fn lemma_first_unknown_unique(evs: Seq<InputEvent>, k: int)
    requires
        is_first_unknown(evs, k),
    ensures
        first_unknown(evs) == k,
{
    let j = first_unknown(evs);
    assert(is_first_unknown(evs, j));
    if j < k {
        assert(evs.take(k)[j] == evs[j]);
    } else if k < j {
        assert(evs.take(j)[k] == evs[k]);
    }
}

/// A key-down event for a key that is already held changes nothing, so a
/// repeated key-down (auto-repeat) leaves a press as it was.
pub proof fn lemma_key_down_repeat(m: InputModel, d: EventData)
    ensures
        event_effect(event_effect(m, "KeyDown"@, d).0, "KeyDown"@, d) == (
            event_effect(m, "KeyDown"@, d).0,
            PointerUpdate::Nothing,
        ),
{
}

/// An axis move on gamepad `g` (of four) and axis `a` (of four) marks exactly that
/// gamepad connected, changes nothing else, and hands the value to axis `a` of
/// gamepad `g`: the update names the event's own gamepad and axis, in that order.
pub proof fn lemma_axis_move_targets_its_axis(m: InputModel, g: u8, a: u8)
    requires
        g < 4,
        a < 4,
    ensures
        event_effect(m, "GamepadAxisMove"@, EventData::GamepadAxis { gamepad: g, axis: a }) == (
            InputModel { pad_connected: m.pad_connected.update(g as int, true), ..m },
            PointerUpdate::AxisSet { gamepad: g as usize, axis: a as usize },
        ),
{
    reveal_strlit("GamepadAxisMove");
    reveal_strlit("KeyDown");
    reveal_strlit("KeyUp");
    reveal_strlit("MouseMove");
    reveal_strlit("MouseDown");
    reveal_strlit("MouseUp");
    reveal_strlit("TouchStart");
    reveal_strlit("TouchMove");
    reveal_strlit("TouchEnd");
    reveal_strlit("TouchCancel");
    reveal_strlit("GamepadButtonDown");
    reveal_strlit("GamepadButtonUp");
    let t = "GamepadAxisMove"@;
    assert(t.len() == 15);
    assert(t != "KeyDown"@ && t != "KeyUp"@ && t != "MouseMove"@ && t != "MouseDown"@);
    assert(t != "MouseUp"@ && t != "TouchStart"@ && t != "TouchMove"@ && t != "TouchEnd"@);
    assert(t != "TouchCancel"@ && t != "GamepadButtonDown"@);
    assert(t[7] != "GamepadButtonUp"@[7]);
}

/// A mouse event stores its button in the slot where the state looks that
/// button up: the slot of a JavaScript button index is the slot of the mouse
/// button it translates to.
pub proof fn lemma_mouse_index_matches_button(b: u8)
    ensures
        mouse_slot(b as int) == mouse_button_slot(mouse_button_of(b)),
{
}

/// The standard gamepad layout: indices 0-5 are the face buttons and bumpers in
/// slots 0-5, 6 and 7 (the triggers) and 16 and up name no button, and 8-15 fill
/// slots 6-13 in order; each named button has its own slot.
pub proof fn lemma_gamepad_layout(b: u8, c: u8)
    ensures
        gamepad_button_of(b) is None <==> (b == 6 || b == 7 || b >= 16),
        gamepad_button_of(b) matches Some(x) ==> x.position() == (if b < 6 { b as int } else { b - 2 }),
        (gamepad_button_of(b) is Some && gamepad_button_of(c) is Some && b != c)
            ==> gamepad_button_of(b)->0.position() != gamepad_button_of(c)->0.position(),
{
}

/// `F` followed by the decimal number of 1 to 12 names that function key, and
/// no key name gives a function key outside 1 to 12.
pub proof fn lemma_function_keys(n: u8, k: Seq<char>)
    ensures
        1 <= n <= 12 ==> key_of(seq!['F'] + decimal(n as nat)) == Some(KeyCode::Function(n)),
        key_of(k) matches Some(KeyCode::Function(m)) ==> 1 <= m <= 12,
{
    if 1 <= n <= 12 {
        reveal_strlit("ArrowUp");
        reveal_strlit("ArrowDown");
        reveal_strlit("ArrowLeft");
        reveal_strlit("ArrowRight");
        reveal_strlit("Space");
        reveal_strlit("Enter");
        reveal_strlit("Escape");
        reveal_strlit("Key");
        reveal_strlit("Digit");
        let d = decimal(n as nat);
        let f = seq!['F'] + d;
        if n < 10 {
            assert(d == seq![digit_char(n as int)]);
        } else {
            assert(decimal((n / 10) as nat) == seq![digit_char((n / 10) as int)]);
            assert(d.len() == 2);
        }
        assert(f.len() <= 3 && f.len() >= 2);
        assert(f[0] == 'F');
        assert(f.drop_first() =~= d);
        assert(!has_prefix(f, "Key"@)) by {
            if has_prefix(f, "Key"@) {
                assert(f.subrange(0, 3)[0] == 'K');
            }
        }
        lemma_parse_decimal_roundtrip(n as nat, 255);
    }
}

/// Processing a batch of events is processing its first part and then the
/// rest: the state carries over and the pointer updates concatenate.
pub proof fn lemma_events_effect_split(m: InputModel, a: Seq<InputEvent>, b: Seq<InputEvent>)
    ensures
        events_effect(m, a + b) == (
            events_effect(events_effect(m, a).0, b).0,
            events_effect(m, a).1 + events_effect(events_effect(m, a).0, b).1,
        ),
    decreases b.len(),
{
    let x = events_effect(m, a);
    if b.len() == 0 {
        assert(a + b =~= a);
        assert(x.1 + Seq::<PointerUpdate>::empty() =~= x.1);
    } else {
        let b0 = b.drop_last();
        lemma_events_effect_split(m, a, b0);
        assert((a + b).drop_last() =~= a + b0);
        assert((a + b).last() == b.last());
        let y0 = events_effect(x.0, b0);
        let step = event_effect(y0.0, b.last().event_type@, b.last().data);
        assert((x.1 + y0.1).push(step.1) =~= x.1 + y0.1.push(step.1));
    }
}

/// Processes a batch of browser input events in order.
///
/// Each event updates the state as [`event_effect`] says, and its pointer update
/// is appended to `updates`. Processing stops at the first event of an unknown
/// type: the events before it have taken effect, it and the rest have not, and
/// the error names its type.
pub fn process_input_events(
    events: &Vec<InputEvent>,
    state: &mut InputState,
    updates: &mut Vec<PointerUpdate>,
) -> (r: Result<(), InputTranslationError>)
    ensures
        r is Ok <==> all_known(events@),
        r is Ok ==> final(state)@ == events_effect(old(state)@, events@).0
            && final(updates)@ == old(updates)@ + events_effect(old(state)@, events@).1,
        r matches Err(e) ==> {
            let k = first_unknown(events@);
            &&& is_first_unknown(events@, k)
            &&& e matches InputTranslationError::UnknownEventType(t) && t@ == events@[k].event_type@
            &&& final(state)@ == events_effect(old(state)@, events@.take(k)).0
            &&& final(updates)@ == old(updates)@ + events_effect(old(state)@, events@.take(k)).1
        },
{
    let ghost s0 = state@;
    let ghost u0 = updates@;
    let mut i: usize = 0;
    assert(events@.take(0) =~= Seq::<InputEvent>::empty());
    assert(u0 + Seq::<PointerUpdate>::empty() =~= u0);
    while i < events.len()
        invariant
            i <= events.len(),
            s0 == old(state)@,
            u0 == old(updates)@,
            all_known(events@.take(i as int)),
            state@ == events_effect(s0, events@.take(i as int)).0,
            updates@ == u0 + events_effect(s0, events@.take(i as int)).1,
        decreases events.len() - i,
    {
        match process_single_event(&events[i], state) {
            Ok(u) => {
                updates.push(u);
                proof {
                    let t = events@.take(i + 1);
                    assert(t.drop_last() =~= events@.take(i as int));
                    assert(t.last() == events@[i as int]);
                    assert(updates@ =~= u0 + events_effect(s0, t).1);
                    assert forall|j: int| 0 <= j < t.len() implies known_event_type(
                        #[trigger] t[j].event_type@,
                    ) by {
                        if j < i {
                            assert(t[j] == events@.take(i as int)[j]);
                        }
                    }
                }
                i = i + 1;
            },
            Err(e) => {
                proof {
                    lemma_first_unknown_unique(events@, i as int);
                }
                return Err(e);
            },
        }
    }
    assert(events@.take(events@.len() as int) =~= events@);
    Ok(())
}

} // verus!
