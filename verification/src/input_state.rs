//! The discrete part of the engine's input state: key, mouse button and
//! gamepad button states, gamepad connection, and the touches in progress.
use vstd::prelude::*;
use crate::input::{GamepadButton, KeyCode, MouseButton};

verus! {

/// Number of mouse button slots (left, right, middle, and two extra buttons).
pub const MOUSE_BUTTON_COUNT: usize = 5;

/// Number of gamepads tracked.
pub const GAMEPAD_COUNT: usize = 4;

/// Number of buttons per gamepad.
pub const GAMEPAD_BUTTON_COUNT: usize = 14;

/// Number of analog axes per gamepad.
pub const GAMEPAD_AXIS_COUNT: usize = 4;

/// State of a button over frames.
#[derive(Debug, Clone, Copy, PartialEq, Eq, Structural)]
pub enum ButtonState {
    /// Not held
    Released,
    /// Went down this frame
    JustPressed,
    /// Held since an earlier frame
    Pressed,
    /// Went up this frame
    JustReleased,
}

impl ButtonState {
    /// Whether the button is held.
    pub open spec fn down(self) -> bool {
        self is JustPressed || self is Pressed
    }

    /// The state one frame later when nothing happens.
    pub open spec fn advanced(self) -> ButtonState {
        match self {
            ButtonState::JustPressed => ButtonState::Pressed,
            ButtonState::JustReleased => ButtonState::Released,
            s => s,
        }
    }

    /// Returns true if the button is held (pressed this frame or earlier).
    pub fn is_down(self) -> (b: bool)
        ensures
            b == self.down(),
    {
        match self {
            ButtonState::JustPressed | ButtonState::Pressed => true,
            _ => false,
        }
    }

    /// Returns true if the button went down this frame.
    pub fn just_pressed(self) -> (b: bool)
        ensures
            b == (self is JustPressed),
    {
        match self {
            ButtonState::JustPressed => true,
            _ => false,
        }
    }

    /// Returns true if the button went up this frame.
    pub fn just_released(self) -> (b: bool)
        ensures
            b == (self is JustReleased),
    {
        match self {
            ButtonState::JustReleased => true,
            _ => false,
        }
    }

    /// The state at the next frame: a fresh press becomes held, a fresh release becomes released.
    pub fn advance(self) -> (s: ButtonState)
        ensures
            s == self.advanced(),
    {
        match self {
            ButtonState::JustPressed => ButtonState::Pressed,
            ButtonState::JustReleased => ButtonState::Released,
            s => s,
        }
    }
}

/// Ending a frame keeps every held button held and every free button free, and
/// leaves no fresh press or release behind, so ending it again changes nothing.
pub proof fn lemma_advance_keeps_holds(s: ButtonState)
    ensures
        s.advanced().down() == s.down(),
        !(s.advanced() is JustPressed) && !(s.advanced() is JustReleased),
        s.advanced().advanced() == s.advanced(),
{
}

impl Default for ButtonState {
    fn default() -> (s: Self)
        ensures
            s == ButtonState::Released,
    {
        ButtonState::Released
    }
}

/// Phase of a touch.
#[derive(Debug, Clone, Copy, PartialEq, Eq, Structural)]
pub enum TouchPhase {
    /// The touch began
    Started,
    /// The touch moved
    Moved,
    /// The touch ended
    Ended,
    /// The touch was cancelled
    Cancelled,
}

/// A touch in progress, identified by the browser's touch id.
#[derive(Debug, Clone, Copy, PartialEq, Eq, Structural)]
pub struct TouchRecord {
    /// Touch identifier
    pub id: u32,
    /// Current phase
    pub phase: TouchPhase,
}

/// The mathematical content of an input state.
pub struct InputModel {
    /// The keys that have a recorded state (keys not in the domain are released)
    pub keys: Map<KeyCode, ButtonState>,
    /// Mouse button states, by slot
    pub mouse: Seq<ButtonState>,
    /// Gamepad button states: button `b` of gamepad `g` at `g * GAMEPAD_BUTTON_COUNT + b`
    pub pad_buttons: Seq<ButtonState>,
    /// Gamepad connection, by gamepad
    pub pad_connected: Seq<bool>,
    /// Touches in progress, oldest first
    pub touches: Seq<TouchRecord>,
}

impl InputModel {
    /// The state of a key (released when never recorded).
    pub open spec fn key(self, k: KeyCode) -> ButtonState {
        if self.keys.dom().contains(k) {
            self.keys[k]
        } else {
            ButtonState::Released
        }
    }

    /// The model with a key's state replaced.
    pub open spec fn with_key(self, k: KeyCode, s: ButtonState) -> InputModel {
        InputModel { keys: self.keys.insert(k, s), ..self }
    }

    /// The model with a mouse slot's state replaced.
    pub open spec fn with_mouse(self, slot: int, s: ButtonState) -> InputModel {
        InputModel { mouse: self.mouse.update(slot, s), ..self }
    }

    /// The state of button `b` of gamepad `g`.
    pub open spec fn pad_button(self, g: int, b: int) -> ButtonState {
        self.pad_buttons[g * GAMEPAD_BUTTON_COUNT + b]
    }

    /// The model with a gamepad button's state replaced.
    pub open spec fn with_pad_button(self, g: int, b: int, s: ButtonState) -> InputModel {
        InputModel { pad_buttons: self.pad_buttons.update(g * GAMEPAD_BUTTON_COUNT + b, s), ..self }
    }

    /// The model with a gamepad's connection flag replaced.
    pub open spec fn with_connected(self, g: int, c: bool) -> InputModel {
        InputModel { pad_connected: self.pad_connected.update(g, c), ..self }
    }

    /// The model with its touches replaced.
    pub open spec fn with_touches(self, t: Seq<TouchRecord>) -> InputModel {
        InputModel { touches: t, ..self }
    }

    /// Whether the model has the shape of an input state: five mouse slots,
    /// four gamepads of fourteen buttons each.
    pub open spec fn well_shaped(self) -> bool {
        &&& self.mouse.len() == MOUSE_BUTTON_COUNT
        &&& self.pad_buttons.len() == GAMEPAD_COUNT * GAMEPAD_BUTTON_COUNT
        &&& self.pad_connected.len() == GAMEPAD_COUNT
        &&& self.keys.dom().finite()
    }
}

/// The map that a list of distinct key/state pairs stands for.
pub open spec fn pairs_map(s: Seq<(KeyCode, ButtonState)>) -> Map<KeyCode, ButtonState>
    decreases s.len(),
{
    if s.len() == 0 {
        Map::empty()
    } else {
        pairs_map(s.drop_last()).insert(s.last().0, s.last().1)
    }
}

/// No key occurs twice in the list.
pub open spec fn distinct_keys(s: Seq<(KeyCode, ButtonState)>) -> bool {
    forall|i: int, j: int| 0 <= i < j < s.len() ==> s[i].0 != s[j].0
}

proof fn lemma_pairs_map_lookup(s: Seq<(KeyCode, ButtonState)>, k: KeyCode)
    requires
        distinct_keys(s),
    ensures
        pairs_map(s).dom().finite(),
        pairs_map(s).dom().contains(k) <==> exists|i: int| 0 <= i < s.len() && s[i].0 == k,
        forall|i: int| 0 <= i < s.len() && s[i].0 == k ==> pairs_map(s)[k] == s[i].1,
    decreases s.len(),
{
    if s.len() > 0 {
        let t = s.drop_last();
        assert(distinct_keys(t));
        lemma_pairs_map_lookup(t, k);
        if s.last().0 != k {
            if pairs_map(s).dom().contains(k) {
                let i = choose|i: int| 0 <= i < t.len() && t[i].0 == k;
                assert(s[i].0 == k);
            }
            if exists|i: int| 0 <= i < s.len() && s[i].0 == k {
                let i = choose|i: int| 0 <= i < s.len() && s[i].0 == k;
                assert(i < s.len() - 1);
                assert(t[i].0 == k);
            }
        } else {
            assert(s[s.len() - 1].0 == k);
        }
    }
}

proof fn lemma_pairs_map_update(s: Seq<(KeyCode, ButtonState)>, i: int, v: ButtonState)
    requires
        distinct_keys(s),
        0 <= i < s.len(),
    ensures
        pairs_map(s.update(i, (s[i].0, v))) =~= pairs_map(s).insert(s[i].0, v),
        distinct_keys(s.update(i, (s[i].0, v))),
    decreases s.len(),
{
    let u = s.update(i, (s[i].0, v));
    let k = s[i].0;
    if i == s.len() - 1 {
        assert(u.drop_last() =~= s.drop_last());
    } else {
        let t = s.drop_last();
        assert(distinct_keys(t));
        lemma_pairs_map_update(t, i, v);
        assert(u.drop_last() =~= t.update(i, (t[i].0, v)));
        assert(s.last().0 != k);
    }
}

/// The full input state.
#[derive(Debug)]
pub struct InputState {
    /// Recorded key states (each key at most once)
    keys: Vec<(KeyCode, ButtonState)>,
    /// Mouse button states, by slot
    mouse_buttons: Vec<ButtonState>,
    /// Gamepad button states, gamepad after gamepad
    pad_buttons: Vec<ButtonState>,
    /// Gamepad connection flags
    pad_connected: Vec<bool>,
    /// Touches in progress
    touches: Vec<TouchRecord>,
}

impl View for InputState {
    type V = InputModel;

    closed spec fn view(&self) -> InputModel {
        InputModel {
            keys: pairs_map(self.keys@),
            mouse: self.mouse_buttons@,
            pad_buttons: self.pad_buttons@,
            pad_connected: self.pad_connected@,
            touches: self.touches@,
        }
    }
}

impl InputState {
    #[verifier::type_invariant]
    closed spec fn inv(&self) -> bool {
        &&& distinct_keys(self.keys@)
        &&& self.mouse_buttons@.len() == MOUSE_BUTTON_COUNT
        &&& self.pad_buttons@.len() == GAMEPAD_COUNT * GAMEPAD_BUTTON_COUNT
        &&& self.pad_connected@.len() == GAMEPAD_COUNT
    }

    /// Creates an input state with every button released, no gamepad
    /// connected and no touches.
    pub fn new() -> (st: Self)
        ensures
            st@.well_shaped(),
            st@.keys.dom().is_empty(),
            forall|i: int| 0 <= i < MOUSE_BUTTON_COUNT ==> st@.mouse[i] == ButtonState::Released,
            forall|i: int| 0 <= i < GAMEPAD_COUNT * GAMEPAD_BUTTON_COUNT ==> st@.pad_buttons[i] == ButtonState::Released,
            forall|g: int| 0 <= g < GAMEPAD_COUNT ==> !st@.pad_connected[g],
            st@.touches.len() == 0,
    {
        let mut mouse_buttons: Vec<ButtonState> = Vec::new();
        let mut i: usize = 0;
        while i < MOUSE_BUTTON_COUNT
            invariant
                i <= MOUSE_BUTTON_COUNT,
                mouse_buttons@.len() == i,
                forall|j: int| 0 <= j < i ==> mouse_buttons@[j] == ButtonState::Released,
            decreases MOUSE_BUTTON_COUNT - i,
        {
            mouse_buttons.push(ButtonState::Released);
            i = i + 1;
        }
        let mut pad_buttons: Vec<ButtonState> = Vec::new();
        let mut i: usize = 0;
        while i < GAMEPAD_COUNT * GAMEPAD_BUTTON_COUNT
            invariant
                i <= GAMEPAD_COUNT * GAMEPAD_BUTTON_COUNT,
                pad_buttons@.len() == i,
                forall|j: int| 0 <= j < i ==> pad_buttons@[j] == ButtonState::Released,
            decreases GAMEPAD_COUNT * GAMEPAD_BUTTON_COUNT - i,
        {
            pad_buttons.push(ButtonState::Released);
            i = i + 1;
        }
        let mut pad_connected: Vec<bool> = Vec::new();
        let mut i: usize = 0;
        while i < GAMEPAD_COUNT
            invariant
                i <= GAMEPAD_COUNT,
                pad_connected@.len() == i,
                forall|j: int| 0 <= j < i ==> !pad_connected@[j],
            decreases GAMEPAD_COUNT - i,
        {
            pad_connected.push(false);
            i = i + 1;
        }
        let st = InputState { keys: Vec::new(), mouse_buttons, pad_buttons, pad_connected, touches: Vec::new() };
        assert(st@.keys =~= Map::<KeyCode, ButtonState>::empty());
        st
    }

    fn find_key(&self, k: KeyCode) -> (r: Option<usize>)
        ensures
            r matches Some(i) ==> i < self.keys@.len() && self.keys@[i as int].0 == k,
            r is None ==> forall|i: int| 0 <= i < self.keys@.len() ==> self.keys@[i].0 != k,
    {
        let mut i: usize = 0;
        while i < self.keys.len()
            invariant
                i <= self.keys@.len(),
                forall|j: int| 0 <= j < i ==> self.keys@[j].0 != k,
            decreases self.keys@.len() - i,
        {
            if self.keys[i].0 == k {
                return Some(i);
            }
            i = i + 1;
        }
        None
    }

    /// Returns the state of a key (released if it was never pressed).
    pub fn key(&self, k: KeyCode) -> (s: ButtonState)
        ensures
            s == self@.key(k),
    {
        proof {
            use_type_invariant(self);
            lemma_pairs_map_lookup(self.keys@, k);
        }
        match self.find_key(k) {
            Some(i) => self.keys[i].1,
            None => ButtonState::Released,
        }
    }

    /// Sets the state of a key.
    pub fn set_key(&mut self, k: KeyCode, s: ButtonState)
        ensures
            final(self)@ == old(self)@.with_key(k, s),
    {
        proof {
            use_type_invariant(&*self);
        }
        let found = self.find_key(k);
        let mut keys: Vec<(KeyCode, ButtonState)> = Vec::new();
        std::mem::swap(&mut keys, &mut self.keys);
        match found {
            Some(i) => {
                proof {
                    lemma_pairs_map_update(keys@, i as int, s);
                }
                keys.set(i, (k, s));
            },
            None => {
                assert(distinct_keys(keys@.push((k, s))));
                assert(keys@.push((k, s)).drop_last() =~= keys@);
                keys.push((k, s));
            },
        }
        self.keys = keys;
        assert(final(self)@.keys =~= old(self)@.keys.insert(k, s));
    }

    /// Returns true if the key is held.
    pub fn is_key_pressed(&self, k: KeyCode) -> (b: bool)
        ensures
            b == self@.key(k).down(),
    {
        self.key(k).is_down()
    }

    /// Marks a key as held (`Pressed`) or not held (`Released`).
    pub fn set_key_pressed(&mut self, k: KeyCode, pressed: bool)
        ensures
            final(self)@ == old(self)@.with_key(k, if pressed { ButtonState::Pressed } else { ButtonState::Released }),
    {
        self.set_key(k, if pressed { ButtonState::Pressed } else { ButtonState::Released });
    }

    /// Ends the frame: presses and releases of this frame become steady states,
    /// and touches that ended or were cancelled are dropped.
    pub fn clear_events(&mut self)
        ensures
            final(self)@.keys == advanced_keys(old(self)@.keys),
            final(self)@.mouse == old(self)@.mouse.map_values(|s: ButtonState| s.advanced()),
            final(self)@.pad_buttons == old(self)@.pad_buttons.map_values(|s: ButtonState| s.advanced()),
            final(self)@.pad_connected == old(self)@.pad_connected,
            final(self)@.touches == old(self)@.touches.filter(|t: TouchRecord| touch_live(t)),
    {
        proof {
            use_type_invariant(&*self);
        }
        let ghost old_keys = self.keys@;
        let mut keys: Vec<(KeyCode, ButtonState)> = Vec::new();
        let mut i: usize = 0;
        while i < self.keys.len()
            invariant
                i <= self.keys@.len(),
                self.keys@ == old_keys,
                distinct_keys(old_keys),
                keys@ == old_keys.subrange(0, i as int).map_values(|p: (KeyCode, ButtonState)| (p.0, p.1.advanced())),
            decreases self.keys@.len() - i,
        {
            let (k, st) = self.keys[i];
            keys.push((k, st.advance()));
            assert(old_keys.subrange(0, i + 1) =~= old_keys.subrange(0, i as int).push(old_keys[i as int]));
            i = i + 1;
        }
        assert(old_keys.subrange(0, old_keys.len() as int) =~= old_keys);
        proof {
            lemma_advanced_pairs(old_keys);
        }
        let mouse = advance_all(&self.mouse_buttons);
        let pads = advance_all(&self.pad_buttons);
        let mut touches: Vec<TouchRecord> = Vec::new();
        let mut j: usize = 0;
        while j < self.touches.len()
            invariant
                j <= self.touches@.len(),
                self.touches@ == old(self).touches@,
                touches@ == self.touches@.subrange(0, j as int).filter(|t: TouchRecord| touch_live(t)),
            decreases self.touches@.len() - j,
        {
            let t = self.touches[j];
            proof {
                reveal_with_fuel(Seq::<_>::filter, 1);
                assert(self.touches@.subrange(0, j + 1).drop_last() =~= self.touches@.subrange(0, j as int));
            }
            if !(t.phase == TouchPhase::Ended || t.phase == TouchPhase::Cancelled) {
                touches.push(t);
            }
            j = j + 1;
        }
        assert(self.touches@.subrange(0, self.touches@.len() as int) =~= self.touches@);
        self.keys = keys;
        self.mouse_buttons = mouse;
        self.pad_buttons = pads;
        self.touches = touches;
    }

    /// Returns the state of a mouse slot (`slot` counts left 0, right 1, middle 2, then extras).
    pub fn mouse_slot_state(&self, slot: usize) -> (s: ButtonState)
        ensures
            slot < MOUSE_BUTTON_COUNT ==> s == self@.mouse[slot as int],
            slot >= MOUSE_BUTTON_COUNT ==> s == ButtonState::Released,
    {
        proof {
            use_type_invariant(self);
        }
        if slot < self.mouse_buttons.len() {
            self.mouse_buttons[slot]
        } else {
            ButtonState::Released
        }
    }

    /// Returns the state of a mouse button.
    pub fn mouse_button(&self, b: MouseButton) -> (s: ButtonState)
        ensures
            s == (if mouse_button_slot(b) < MOUSE_BUTTON_COUNT {
                self@.mouse[mouse_button_slot(b)]
            } else {
                ButtonState::Released
            }),
    {
        let slot: usize = match b {
            MouseButton::Left => 0,
            MouseButton::Right => 1,
            MouseButton::Middle => 2,
            MouseButton::Extra(n) => 3 + n as usize,
        };
        self.mouse_slot_state(slot)
    }

    /// Sets the state of a mouse slot.
    pub fn set_mouse_slot(&mut self, slot: usize, s: ButtonState)
        requires
            slot < MOUSE_BUTTON_COUNT,
        ensures
            final(self)@ == old(self)@.with_mouse(slot as int, s),
    {
        proof {
            use_type_invariant(&*self);
        }
        let mut m: Vec<ButtonState> = self.mouse_buttons.clone();
        assert(m@ =~= old(self).mouse_buttons@);
        m.set(slot, s);
        self.mouse_buttons = m;
    }

    /// Returns the state of a gamepad button (released for a gamepad out of range).
    pub fn gamepad_button(&self, g: usize, b: GamepadButton) -> (s: ButtonState)
        ensures
            g < GAMEPAD_COUNT ==> s == self@.pad_button(g as int, b.position()),
            g >= GAMEPAD_COUNT ==> s == ButtonState::Released,
    {
        proof {
            use_type_invariant(self);
        }
        if g < GAMEPAD_COUNT {
            self.pad_buttons[g * GAMEPAD_BUTTON_COUNT + b.index()]
        } else {
            ButtonState::Released
        }
    }

    /// Sets the state of button `b` of gamepad `g`.
    pub fn set_gamepad_button(&mut self, g: usize, b: usize, s: ButtonState)
        requires
            g < GAMEPAD_COUNT,
            b < GAMEPAD_BUTTON_COUNT,
        ensures
            final(self)@ == old(self)@.with_pad_button(g as int, b as int, s),
    {
        proof {
            use_type_invariant(&*self);
        }
        let mut p: Vec<ButtonState> = self.pad_buttons.clone();
        assert(p@ =~= old(self).pad_buttons@);
        p.set(g * GAMEPAD_BUTTON_COUNT + b, s);
        self.pad_buttons = p;
    }

    /// Returns whether gamepad `g` is connected (false when out of range).
    pub fn gamepad_connected(&self, g: usize) -> (c: bool)
        ensures
            c == (g < GAMEPAD_COUNT && self@.pad_connected[g as int]),
    {
        proof {
            use_type_invariant(self);
        }
        g < GAMEPAD_COUNT && self.pad_connected[g]
    }

    /// Sets whether gamepad `g` is connected.
    pub fn set_gamepad_connected(&mut self, g: usize, c: bool)
        requires
            g < GAMEPAD_COUNT,
        ensures
            final(self)@ == old(self)@.with_connected(g as int, c),
    {
        proof {
            use_type_invariant(&*self);
        }
        let mut p: Vec<bool> = self.pad_connected.clone();
        assert(p@ =~= old(self).pad_connected@);
        p.set(g, c);
        self.pad_connected = p;
    }

    /// Returns the touches in progress, oldest first.
    pub fn touches(&self) -> (t: &Vec<TouchRecord>)
        ensures
            t@ == self@.touches,
    {
        &self.touches
    }

    /// Adds a touch.
    pub fn push_touch(&mut self, t: TouchRecord)
        ensures
            final(self)@ == old(self)@.with_touches(old(self)@.touches.push(t)),
    {
        proof {
            use_type_invariant(&*self);
        }
        let mut v: Vec<TouchRecord> = Vec::new();
        std::mem::swap(&mut v, &mut self.touches);
        v.push(t);
        self.touches = v;
    }

    /// Sets the phase of the touch at position `i`.
    pub fn set_touch_phase(&mut self, i: usize, phase: TouchPhase)
        requires
            i < old(self)@.touches.len(),
        ensures
            final(self)@ == old(self)@.with_touches(
                old(self)@.touches.update(i as int, TouchRecord { id: old(self)@.touches[i as int].id, phase }),
            ),
    {
        proof {
            use_type_invariant(&*self);
        }
        let mut v: Vec<TouchRecord> = Vec::new();
        std::mem::swap(&mut v, &mut self.touches);
        let id = v[i].id;
        v.set(i, TouchRecord { id, phase });
        self.touches = v;
    }

    /// Returns the position of the first touch with the given id.
    pub fn find_touch(&self, id: u32) -> (r: Option<usize>)
        ensures
            r == first_touch_with(self@.touches, id),
            r matches Some(i) ==> i < self@.touches.len() && self@.touches[i as int].id == id,
    {
        let mut i: usize = 0;
        while i < self.touches.len()
            invariant
                i <= self@.touches.len(),
                forall|j: int| 0 <= j < i ==> self@.touches[j].id != id,
            decreases self@.touches.len() - i,
        {
            if self.touches[i].id == id {
                proof {
                    lemma_first_touch_with(self@.touches, id, i as int);
                }
                return Some(i);
            }
            i = i + 1;
        }
        proof {
            lemma_no_touch_with(self@.touches, id);
        }
        None
    }
}

/// The mouse slot of a mouse button: left 0, right 1, middle 2, extra `n` at `3 + n`.
pub open spec fn mouse_button_slot(b: MouseButton) -> int {
    match b {
        MouseButton::Left => 0,
        MouseButton::Right => 1,
        MouseButton::Middle => 2,
        MouseButton::Extra(n) => 3 + n,
    }
}

/// The position of the first touch with the given id.
pub open spec fn first_touch_with(t: Seq<TouchRecord>, id: u32) -> Option<usize>
    decreases t.len(),
{
    if t.len() == 0 {
        None
    } else if t[0].id == id {
        Some(0usize)
    } else {
        match first_touch_with(t.drop_first(), id) {
            Some(i) => Some((i + 1) as usize),
            None => None,
        }
    }
}

proof fn lemma_first_touch_with(t: Seq<TouchRecord>, id: u32, i: int)
    requires
        0 <= i < t.len(),
        t.len() <= usize::MAX,
        t[i].id == id,
        forall|j: int| 0 <= j < i ==> t[j].id != id,
    ensures
        first_touch_with(t, id) == Some(i as usize),
    decreases i,
{
    if i > 0 {
        lemma_first_touch_with(t.drop_first(), id, i - 1);
    }
}

proof fn lemma_no_touch_with(t: Seq<TouchRecord>, id: u32)
    requires
        forall|j: int| 0 <= j < t.len() ==> t[j].id != id,
    ensures
        first_touch_with(t, id) is None,
    decreases t.len(),
{
    if t.len() > 0 {
        lemma_no_touch_with(t.drop_first(), id);
    }
}

impl GamepadButton {
    /// The slot of a button in a gamepad's button states.
    pub open spec fn position(self) -> int {
        match self {
            GamepadButton::South => 0,
            GamepadButton::East => 1,
            GamepadButton::West => 2,
            GamepadButton::North => 3,
            GamepadButton::LeftBumper => 4,
            GamepadButton::RightBumper => 5,
            GamepadButton::Select => 6,
            GamepadButton::Start => 7,
            GamepadButton::LeftStick => 8,
            GamepadButton::RightStick => 9,
            GamepadButton::DPadUp => 10,
            GamepadButton::DPadDown => 11,
            GamepadButton::DPadLeft => 12,
            GamepadButton::DPadRight => 13,
        }
    }

    /// Returns the slot of this button in a gamepad's button states.
    pub fn index(self) -> (i: usize)
        ensures
            i == self.position(),
            i < GAMEPAD_BUTTON_COUNT,
    {
        match self {
            GamepadButton::South => 0,
            GamepadButton::East => 1,
            GamepadButton::West => 2,
            GamepadButton::North => 3,
            GamepadButton::LeftBumper => 4,
            GamepadButton::RightBumper => 5,
            GamepadButton::Select => 6,
            GamepadButton::Start => 7,
            GamepadButton::LeftStick => 8,
            GamepadButton::RightStick => 9,
            GamepadButton::DPadUp => 10,
            GamepadButton::DPadDown => 11,
            GamepadButton::DPadLeft => 12,
            GamepadButton::DPadRight => 13,
        }
    }
}

/// Whether a touch is still in progress (neither ended nor cancelled).
pub open spec fn touch_live(t: TouchRecord) -> bool {
    !(t.phase is Ended || t.phase is Cancelled)
}

/// Every recorded key moved one frame on.
pub open spec fn advanced_keys(m: Map<KeyCode, ButtonState>) -> Map<KeyCode, ButtonState> {
    Map::new(|k: KeyCode| m.dom().contains(k), |k: KeyCode| m[k].advanced())
}

proof fn lemma_advanced_pairs(s: Seq<(KeyCode, ButtonState)>)
    requires
        distinct_keys(s),
    ensures
        pairs_map(s.map_values(|p: (KeyCode, ButtonState)| (p.0, p.1.advanced())))
            =~= advanced_keys(pairs_map(s)),
        distinct_keys(s.map_values(|p: (KeyCode, ButtonState)| (p.0, p.1.advanced()))),
    decreases s.len(),
{
    let f = |p: (KeyCode, ButtonState)| (p.0, p.1.advanced());
    if s.len() > 0 {
        let t = s.drop_last();
        assert(distinct_keys(t));
        lemma_advanced_pairs(t);
        assert(s.map_values(f).drop_last() =~= t.map_values(f));
        lemma_pairs_map_lookup(t, s.last().0);
        lemma_pairs_map_lookup(s, s.last().0);
    }
}

fn advance_all(v: &Vec<ButtonState>) -> (r: Vec<ButtonState>)
    ensures
        r@ == v@.map_values(|s: ButtonState| s.advanced()),
{
    let mut r: Vec<ButtonState> = Vec::new();
    let mut i: usize = 0;
    while i < v.len()
        invariant
            i <= v@.len(),
            r@ == v@.subrange(0, i as int).map_values(|s: ButtonState| s.advanced()),
        decreases v@.len() - i,
    {
        r.push(v[i].advance());
        assert(v@.subrange(0, i + 1) =~= v@.subrange(0, i as int).push(v@[i as int]));
        i = i + 1;
    }
    assert(v@.subrange(0, v@.len() as int) =~= v@);
    r
}

} // verus!
