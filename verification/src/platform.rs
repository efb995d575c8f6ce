//! Web platform configuration, errors, JavaScript actions, and the rules of the
//! Pong game: keyboard shortcuts, HUD button actions, the menu / playing /
//! paused / game-over state machine, rallies, scores and the high score.
use vstd::prelude::*;
use crate::demo::{speed_order, GameMode, SpeedMultiplier};
use crate::input::{InputTranslationError, KeyCode, MouseButton};
use crate::input_state::{InputState, MOUSE_BUTTON_COUNT};
use crate::text::{append_str, ascii_lower};

verus! {

/// Web platform configuration.
#[derive(Debug, Clone, PartialEq, Eq, Structural)]
pub struct WebConfig {
    /// Canvas width in pixels
    pub width: u32,
    /// Canvas height in pixels
    pub height: u32,
    /// Target frames per second (for fixed timestep)
    pub target_fps: u32,
    /// Enable debug rendering
    pub debug: bool,
    /// Enable AI opponent (replaces Player 2)
    pub ai_enabled: bool,
}

impl Default for WebConfig {
    /// An 800x600 canvas at 60 FPS, no debug rendering, AI enabled.
    fn default() -> (c: Self)
        ensures
            c == (WebConfig { width: 800, height: 600, target_fps: 60, debug: false, ai_enabled: true }),
    {
        WebConfig { width: 800, height: 600, target_fps: 60, debug: false, ai_enabled: true }
    }
}

impl WebConfig {
    /// Creates a new web config with specified dimensions (60 FPS, no debug, AI enabled).
    pub fn new(width: u32, height: u32) -> (c: Self)
        ensures
            c == (WebConfig { width, height, target_fps: 60, debug: false, ai_enabled: true }),
    {
        WebConfig { width, height, target_fps: 60, debug: false, ai_enabled: true }
    }
}

/// Error type for web platform operations.
#[derive(Debug, Clone, PartialEq, Eq)]
pub enum WebPlatformError {
    /// Invalid configuration
    InvalidConfig(String),
    /// Input processing error
    InputError(String),
    /// Render error
    RenderError(String),
}

impl WebPlatformError {
    /// The error's message text.
    pub open spec fn message_text(&self) -> Seq<char> {
        match self {
            WebPlatformError::InvalidConfig(m) => "Invalid config: "@ + m@,
            WebPlatformError::InputError(m) => "Input error: "@ + m@,
            WebPlatformError::RenderError(m) => "Render error: "@ + m@,
        }
    }

    /// Returns the error message.
    pub fn message(&self) -> (s: String)
        ensures
            s@ == self.message_text(),
    {
        let mut s = String::new();
        match self {
            WebPlatformError::InvalidConfig(m) => {
                append_str(&mut s, "Invalid config: ");
                append_str(&mut s, m.as_str());
            },
            WebPlatformError::InputError(m) => {
                append_str(&mut s, "Input error: ");
                append_str(&mut s, m.as_str());
            },
            WebPlatformError::RenderError(m) => {
                append_str(&mut s, "Render error: ");
                append_str(&mut s, m.as_str());
            },
        }
        assert(s@ =~= self.message_text());
        s
    }

    /// An input error carrying the input translation error's message.
    pub fn from_input_error(err: InputTranslationError) -> (e: Self)
        ensures
            e matches WebPlatformError::InputError(m) && m@ == err.message_text(),
    {
        WebPlatformError::InputError(err.message())
    }
}

/// An action to be performed by JavaScript.
#[derive(Debug, Clone, PartialEq, Eq)]
pub enum JsAction {
    /// Trigger download of the AI model as .apr file
    DownloadAiModel,
    /// Open a URL in a new tab
    OpenUrl {
        /// The URL to open
        url: String,
    },
    /// Request fullscreen mode (for ultra-wide monitors)
    EnterFullscreen,
    /// Exit fullscreen mode
    ExitFullscreen,
}

/// Game state for menu/pause functionality.
#[derive(Debug, Clone, Copy, PartialEq, Eq, Structural)]
pub enum GameState {
    /// Waiting at menu for player to start
    Menu,
    /// Game is actively playing
    Playing,
    /// Game is paused
    Paused,
    /// Game over (one player reached winning score)
    GameOver,
}

impl Default for GameState {
    fn default() -> (s: Self)
        ensures
            s == GameState::Menu,
    {
        GameState::Menu
    }
}

/// The speed that `setSpeed` selects for a multiplier value: 5, 10, 50, 100 and
/// 1000 select that speed, any other value normal speed.
pub open spec fn speed_for(v: u32) -> SpeedMultiplier {
    if v == 5 {
        SpeedMultiplier::Fast5x
    } else if v == 10 {
        SpeedMultiplier::Fast10x
    } else if v == 50 {
        SpeedMultiplier::Fast50x
    } else if v == 100 {
        SpeedMultiplier::Fast100x
    } else if v == 1000 {
        SpeedMultiplier::Fast1000x
    } else {
        SpeedMultiplier::Normal
    }
}

/// Selects the speed multiplier for a numeric value (1, 5, 10, 50, 100, 1000;
/// anything else is normal speed).
pub fn speed_for_value(v: u32) -> (s: SpeedMultiplier)
    ensures
        s == speed_for(v),
{
    match v {
        5 => SpeedMultiplier::Fast5x,
        10 => SpeedMultiplier::Fast10x,
        50 => SpeedMultiplier::Fast50x,
        100 => SpeedMultiplier::Fast100x,
        1000 => SpeedMultiplier::Fast1000x,
        _ => SpeedMultiplier::Normal,
    }
}

/// Selecting a speed by its own multiplier value gives that speed back.
pub proof fn lemma_speed_value_roundtrip(s: SpeedMultiplier)
    ensures
        speed_for(s.multiplier()) == s,
{
}

/// The game mode that `setGameMode` selects for a name, compared without
/// case: "demo" is demo mode; "2p", "two" and "twoplayer" are two-player mode;
/// anything else is single-player mode.
pub open spec fn mode_for(name: Seq<char>) -> GameMode {
    let l = name.map_values(|c: char| ascii_lower(c));
    if l == "demo"@ {
        GameMode::Demo
    } else if l == "2p"@ || l == "two"@ || l == "twoplayer"@ {
        GameMode::TwoPlayer
    } else {
        GameMode::SinglePlayer
    }
}

fn lower_char(c: char) -> (r: char)
    ensures
        r == ascii_lower(c),
{
    if 'A' <= c && c <= 'Z' {
        let b: u8 = c as u8;
        let r = (b + 32) as char;
        assert(r == ((c as u32) + 32) as char);
        r
    } else {
        c
    }
}

/// Whether `s`, lowercased, is `target`.
fn lower_equals(s: &str, target: &str) -> (r: bool)
    ensures
        r == (s@.map_values(|c: char| ascii_lower(c)) == target@),
{
    let ghost l = s@.map_values(|c: char| ascii_lower(c));
    let n = s.unicode_len();
    if n != target.unicode_len() {
        return false;
    }
    let mut i: usize = 0;
    while i < n
        invariant
            i <= n,
            n == s@.len(),
            n == target@.len(),
            l == s@.map_values(|c: char| ascii_lower(c)),
            l.subrange(0, i as int) == target@.subrange(0, i as int),
        decreases n - i,
    {
        if lower_char(s.get_char(i)) != target.get_char(i) {
            assert(l[i as int] != target@[i as int]);
            return false;
        }
        assert(l.subrange(0, i + 1) =~= l.subrange(0, i as int).push(l[i as int]));
        assert(target@.subrange(0, i + 1) =~= target@.subrange(0, i as int).push(target@[i as int]));
        i = i + 1;
    }
    assert(l =~= l.subrange(0, n as int));
    assert(target@ =~= target@.subrange(0, n as int));
    true
}

/// Selects the game mode for a name ("demo", "1p", "2p", ...), ignoring case.
///
/// Lowercasing is done on ASCII letters only; the only other character whose
/// lowercase form is an ASCII letter is the Kelvin sign (to 'k'), which none of
/// the recognized names contains, so the selection agrees with full Unicode lowercasing.
pub fn game_mode_for_name(name: &str) -> (m: GameMode)
    ensures
        m == mode_for(name@),
{
    if lower_equals(name, "demo") {
        GameMode::Demo
    } else if lower_equals(name, "2p") || lower_equals(name, "two") || lower_equals(name, "twoplayer") {
        GameMode::TwoPlayer
    } else {
        GameMode::SinglePlayer
    }
}

/// The keys and mouse button that drive the game controls, as held in one frame.
#[derive(Debug, Clone, Copy, PartialEq, Eq, Structural)]
pub struct ControlInput {
    /// Number keys 1 to 6 (speed selection)
    pub key_1: bool,
    /// Number key 2
    pub key_2: bool,
    /// Number key 3
    pub key_3: bool,
    /// Number key 4
    pub key_4: bool,
    /// Number key 5
    pub key_5: bool,
    /// Number key 6
    pub key_6: bool,
    /// M: cycle game mode
    pub key_m: bool,
    /// D: toggle demo mode
    pub key_d: bool,
    /// I: toggle the model info panel
    pub key_i: bool,
    /// F: toggle fullscreen
    pub key_f: bool,
    /// F11: toggle fullscreen
    pub key_f11: bool,
    /// Space: start / resume
    pub space: bool,
    /// Escape: pause / resume
    pub escape: bool,
    /// Left mouse button
    pub mouse_left: bool,
}

impl ControlInput {
    /// No key held.
    pub open spec fn none() -> ControlInput {
        ControlInput {
            key_1: false, key_2: false, key_3: false, key_4: false, key_5: false, key_6: false,
            key_m: false, key_d: false, key_i: false, key_f: false, key_f11: false,
            space: false, escape: false, mouse_left: false,
        }
    }

    /// Reads the control keys from the input state.
    pub fn from_input(input: &InputState) -> (c: Self)
        ensures
            c.key_1 == input@.key(KeyCode::Number(1)).down(),
            c.key_2 == input@.key(KeyCode::Number(2)).down(),
            c.key_3 == input@.key(KeyCode::Number(3)).down(),
            c.key_4 == input@.key(KeyCode::Number(4)).down(),
            c.key_5 == input@.key(KeyCode::Number(5)).down(),
            c.key_6 == input@.key(KeyCode::Number(6)).down(),
            c.key_m == input@.key(KeyCode::Letter('M')).down(),
            c.key_d == input@.key(KeyCode::Letter('D')).down(),
            c.key_i == input@.key(KeyCode::Letter('I')).down(),
            c.key_f == input@.key(KeyCode::Letter('F')).down(),
            c.key_f11 == input@.key(KeyCode::Function(11)).down(),
            c.space == input@.key(KeyCode::Space).down(),
            c.escape == input@.key(KeyCode::Escape).down(),
            c.mouse_left == input@.mouse[0].down(),
    {
        let mouse = input.mouse_slot_state(0);
        ControlInput {
            key_1: input.is_key_pressed(KeyCode::Number(1)),
            key_2: input.is_key_pressed(KeyCode::Number(2)),
            key_3: input.is_key_pressed(KeyCode::Number(3)),
            key_4: input.is_key_pressed(KeyCode::Number(4)),
            key_5: input.is_key_pressed(KeyCode::Number(5)),
            key_6: input.is_key_pressed(KeyCode::Number(6)),
            key_m: input.is_key_pressed(KeyCode::Letter('M')),
            key_d: input.is_key_pressed(KeyCode::Letter('D')),
            key_i: input.is_key_pressed(KeyCode::Letter('I')),
            key_f: input.is_key_pressed(KeyCode::Letter('F')),
            key_f11: input.is_key_pressed(KeyCode::Function(11)),
            space: input.is_key_pressed(KeyCode::Space),
            escape: input.is_key_pressed(KeyCode::Escape),
            mouse_left: mouse.is_down(),
        }
    }
}

/// A clickable HUD button.
#[derive(Debug, Clone, Copy, PartialEq, Eq, Structural)]
pub enum HudButton {
    /// Demo mode button
    ModeDemo,
    /// Single-player mode button
    Mode1P,
    /// Two-player mode button
    Mode2P,
    /// 1x speed button
    Speed1x,
    /// 5x speed button
    Speed5x,
    /// 10x speed button
    Speed10x,
    /// 50x speed button
    Speed50x,
    /// 100x speed button
    Speed100x,
    /// 1000x speed button
    Speed1000x,
    /// AI difficulty down
    AiDecrease,
    /// AI difficulty up
    AiIncrease,
    /// Download the .apr model
    Download,
    /// Model info panel toggle
    ModelInfo,
    /// Sound toggle
    SoundToggle,
}

/// What a HUD click asks of the rest of the game.
#[derive(Debug, Clone, Copy, PartialEq, Eq, Structural)]
pub struct HudClickEffect {
    /// The game was restarted in a new mode: reset the field and play the start jingle
    pub restarted: bool,
    /// The AI difficulty to set, if it changes
    pub ai_level: Option<u8>,
    /// The sound was toggled: play the confirmation (it sounds only when enabled)
    pub sound_toggled: bool,
}

/// What a frame's state transition asks of the rest of the game.
#[derive(Debug, Clone, Copy, PartialEq, Eq, Structural)]
pub struct StateStep {
    /// The game was (re)started from the menu or game over: reset the field and play the start jingle
    pub restarted: bool,
    /// Run the game simulation this frame
    pub simulate: bool,
}

/// The state machine: the next state, whether the game restarts, and whether
/// the simulation runs, given whether Space and Escape went down this frame.
pub open spec fn state_transition(s: GameState, space: bool, escape: bool) -> (GameState, bool, bool) {
    match s {
        GameState::Menu => if space { (GameState::Playing, true, false) } else { (s, false, false) },
        GameState::Playing => if escape { (GameState::Paused, false, false) } else { (s, false, true) },
        GameState::Paused => if space || escape { (GameState::Playing, false, false) } else { (s, false, false) },
        GameState::GameOver => if space { (GameState::Playing, true, false) } else { (s, false, false) },
    }
}

/// The speed after the speed keys 1 to 6 that went down this frame (the highest one wins).
pub open spec fn speed_after_keys(s: SpeedMultiplier, e1: bool, e2: bool, e3: bool, e4: bool, e5: bool, e6: bool) -> SpeedMultiplier {
    if e6 {
        SpeedMultiplier::Fast1000x
    } else if e5 {
        SpeedMultiplier::Fast100x
    } else if e4 {
        SpeedMultiplier::Fast50x
    } else if e3 {
        SpeedMultiplier::Fast10x
    } else if e2 {
        SpeedMultiplier::Fast5x
    } else if e1 {
        SpeedMultiplier::Normal
    } else {
        s
    }
}

/// The mode after M (cycle) and then D (toggle demo / single player) went down.
pub open spec fn mode_after_keys(m: GameMode, cycle: bool, toggle: bool) -> GameMode {
    let m1 = if cycle { m.successor() } else { m };
    if toggle {
        if m1 == GameMode::Demo { GameMode::SinglePlayer } else { GameMode::Demo }
    } else {
        m1
    }
}

/// The discrete state of a Pong game: its mode, speed, state, scores and rally,
/// the HUD toggles, and the keys held in the previous frame.
#[derive(Debug, Clone)]
pub struct PongControl {
    /// Current game state
    pub state: GameState,
    /// Current speed multiplier for physics
    pub speed_multiplier: SpeedMultiplier,
    /// Current game mode (Demo/1P/2P)
    pub game_mode: GameMode,
    /// Left player score
    pub left_score: u32,
    /// Right player score
    pub right_score: u32,
    /// Current rally count (consecutive hits without scoring)
    pub rally_count: u32,
    /// High score: the longest finished rally (persists across games in session)
    pub high_score: u32,
    /// Winning score threshold
    pub winning_score: u32,
    /// Whether to show the model info panel
    pub show_model_info: bool,
    /// Whether a .apr download was requested (consumed after the frame)
    pub download_requested: bool,
    /// Whether sound is enabled
    pub sound_enabled: bool,
    /// Whether a fullscreen change was requested (consumed after the frame)
    pub fullscreen_requested: bool,
    /// Current fullscreen state
    pub is_fullscreen: bool,
    /// Keys held in the previous frame, for edge detection
    pub previous: ControlInput,
}

impl PongControl {
    /// The game after a goal for the right side (`right_scored`) or the left side:
    /// that side's score grows by one, the high score becomes the longer of itself
    /// and the finished rally, a new rally begins, and when the scoring side has
    /// reached the winning score the game is over. Also whether it is over.
    pub open spec fn after_goal(self, right_scored: bool) -> (PongControl, bool) {
        let left = if right_scored { self.left_score } else { (self.left_score + 1) as u32 };
        let right = if right_scored { (self.right_score + 1) as u32 } else { self.right_score };
        let over = (if right_scored { right } else { left }) >= self.winning_score;
        (PongControl {
            left_score: left,
            right_score: right,
            high_score: if self.rally_count > self.high_score { self.rally_count } else { self.high_score },
            rally_count: 0,
            state: if over { GameState::GameOver } else { self.state },
            ..self
        }, over)
    }

    /// The game after this frame's keyboard shortcuts (speed keys, M, D, I, F or
    /// F11, each acting when it goes down) and whether the left mouse button was
    /// just clicked. The keys become the previous frame's keys, but for Space and
    /// Escape, which the state machine reads.
    pub open spec fn after_shortcuts(self, keys: ControlInput) -> (PongControl, bool) {
        let p = self.previous;
        let f = (keys.key_f || keys.key_f11) && !(p.key_f || p.key_f11);
        (PongControl {
            speed_multiplier: speed_after_keys(self.speed_multiplier,
                keys.key_1 && !p.key_1,
                keys.key_2 && !p.key_2,
                keys.key_3 && !p.key_3,
                keys.key_4 && !p.key_4,
                keys.key_5 && !p.key_5,
                keys.key_6 && !p.key_6,
            ),
            game_mode: mode_after_keys(self.game_mode, keys.key_m && !p.key_m, keys.key_d && !p.key_d),
            show_model_info: self.show_model_info != (keys.key_i && !p.key_i),
            is_fullscreen: self.is_fullscreen != f,
            fullscreen_requested: self.fullscreen_requested || f,
            previous: ControlInput { space: p.space, escape: p.escape, ..keys },
            ..self
        }, keys.mouse_left && !p.mouse_left)
    }

    /// The game restarted in a mode: scores and rally reset, playing.
    pub open spec fn restarted_in(self, mode: GameMode) -> PongControl {
        PongControl {
            game_mode: mode,
            left_score: 0,
            right_score: 0,
            rally_count: 0,
            state: GameState::Playing,
            ..self
        }
    }

    /// The game after a click on the HUD, and what the click asks of the rest of
    /// the game. While the info panel is shown, a click only dismisses it.
    /// Otherwise a mode button restarts the game in that mode, a speed button sets
    /// the speed, the AI buttons step the difficulty `ai_level` (when there is an
    /// AI) within 0 to 9, Download requests the model, Info shows the panel, Sound
    /// toggles the sound; a click that hits no button does nothing.
    pub open spec fn after_hud_click(self, hit: Option<HudButton>, ai_level: Option<u8>) -> (PongControl, HudClickEffect) {
        let none = HudClickEffect { restarted: false, ai_level: None, sound_toggled: false };
        let restart = HudClickEffect { restarted: true, ai_level: None, sound_toggled: false };
        if self.show_model_info {
            (PongControl { show_model_info: false, ..self }, none)
        } else {
            match hit {
                Some(HudButton::ModeDemo) => (self.restarted_in(GameMode::Demo), restart),
                Some(HudButton::Mode1P) => (self.restarted_in(GameMode::SinglePlayer), restart),
                Some(HudButton::Mode2P) => (self.restarted_in(GameMode::TwoPlayer), restart),
                Some(HudButton::Speed1x) => (PongControl { speed_multiplier: SpeedMultiplier::Normal, ..self }, none),
                Some(HudButton::Speed5x) => (PongControl { speed_multiplier: SpeedMultiplier::Fast5x, ..self }, none),
                Some(HudButton::Speed10x) => (PongControl { speed_multiplier: SpeedMultiplier::Fast10x, ..self }, none),
                Some(HudButton::Speed50x) => (PongControl { speed_multiplier: SpeedMultiplier::Fast50x, ..self }, none),
                Some(HudButton::Speed100x) => (PongControl { speed_multiplier: SpeedMultiplier::Fast100x, ..self }, none),
                Some(HudButton::Speed1000x) => (PongControl { speed_multiplier: SpeedMultiplier::Fast1000x, ..self }, none),
                Some(HudButton::AiDecrease) => (self, HudClickEffect {
                    ai_level: match ai_level {
                        Some(l) => if l > 0 { Some((l - 1) as u8) } else { None },
                        None => None,
                    },
                    ..none
                }),
                Some(HudButton::AiIncrease) => (self, HudClickEffect {
                    ai_level: match ai_level {
                        Some(l) => if l < 9 { Some((l + 1) as u8) } else { None },
                        None => None,
                    },
                    ..none
                }),
                Some(HudButton::Download) => (PongControl { download_requested: true, ..self }, none),
                Some(HudButton::ModelInfo) => (PongControl { show_model_info: true, ..self }, none),
                Some(HudButton::SoundToggle) => (
                    PongControl { sound_enabled: !self.sound_enabled, ..self },
                    HudClickEffect { sound_toggled: true, ..none },
                ),
                None => (self, none),
            }
        }
    }

    /// A new game: playing immediately, normal speed, single player, first to
    /// 11 points, sound on, nothing held.
    pub fn new() -> (c: Self)
        ensures
            c.state == GameState::Playing,
            c.speed_multiplier == SpeedMultiplier::Normal,
            c.game_mode == GameMode::SinglePlayer,
            c.left_score == 0 && c.right_score == 0 && c.rally_count == 0 && c.high_score == 0,
            c.winning_score == 11,
            !c.show_model_info && !c.download_requested && c.sound_enabled,
            !c.fullscreen_requested && !c.is_fullscreen,
            c.previous == ControlInput::none(),
    {
        PongControl {
            state: GameState::Playing,
            speed_multiplier: SpeedMultiplier::Normal,
            game_mode: GameMode::SinglePlayer,
            left_score: 0,
            right_score: 0,
            rally_count: 0,
            high_score: 0,
            winning_score: 11,
            show_model_info: false,
            download_requested: false,
            sound_enabled: true,
            fullscreen_requested: false,
            is_fullscreen: false,
            previous: ControlInput {
                key_1: false, key_2: false, key_3: false, key_4: false, key_5: false, key_6: false,
                key_m: false, key_d: false, key_i: false, key_f: false, key_f11: false,
                space: false, escape: false, mouse_left: false,
            },
        }
    }

    /// Resets scores and the rally for a new game; the high score persists.
    pub fn reset_game(&mut self)
        ensures
            *final(self) == (PongControl { left_score: 0, right_score: 0, rally_count: 0, ..*old(self) }),
    {
        self.left_score = 0;
        self.right_score = 0;
        self.rally_count = 0;
    }

    /// Sets the game mode and resets the game.
    pub fn set_game_mode(&mut self, mode: GameMode)
        ensures
            *final(self) == (PongControl {
                game_mode: mode,
                left_score: 0,
                right_score: 0,
                rally_count: 0,
                ..*old(self)
            }),
    {
        self.game_mode = mode;
        self.reset_game();
    }

    /// Starts the game from the menu (resetting it); in any other state nothing happens.
    /// Returns whether the game started.
    pub fn start(&mut self) -> (started: bool)
        ensures
            started == (old(self).state == GameState::Menu),
            started ==> *final(self) == (PongControl {
                state: GameState::Playing,
                left_score: 0,
                right_score: 0,
                rally_count: 0,
                ..*old(self)
            }),
            !started ==> *final(self) == *old(self),
    {
        if self.state == GameState::Menu {
            self.reset_game();
            self.state = GameState::Playing;
            true
        } else {
            false
        }
    }

    /// Applies the keyboard shortcuts that went down this frame (speed keys 1-6,
    /// M cycles the mode, D toggles demo mode, I toggles the info panel, F or F11
    /// toggles fullscreen) and returns whether the left mouse button was just clicked.
    pub fn apply_shortcuts(&mut self, keys: ControlInput) -> (clicked: bool)
        ensures
            (*final(self), clicked) == old(self).after_shortcuts(keys),
    {
        let prev = self.previous;
        let speed = if keys.key_6 && !prev.key_6 {
            SpeedMultiplier::Fast1000x
        } else if keys.key_5 && !prev.key_5 {
            SpeedMultiplier::Fast100x
        } else if keys.key_4 && !prev.key_4 {
            SpeedMultiplier::Fast50x
        } else if keys.key_3 && !prev.key_3 {
            SpeedMultiplier::Fast10x
        } else if keys.key_2 && !prev.key_2 {
            SpeedMultiplier::Fast5x
        } else if keys.key_1 && !prev.key_1 {
            SpeedMultiplier::Normal
        } else {
            self.speed_multiplier
        };
        let cycled = if keys.key_m && !prev.key_m { self.game_mode.next() } else { self.game_mode };
        // D key toggles between Demo and SinglePlayer
        let mode = if keys.key_d && !prev.key_d {
            if cycled == GameMode::Demo { GameMode::SinglePlayer } else { GameMode::Demo }
        } else {
            cycled
        };
        let info = if keys.key_i && !prev.key_i { !self.show_model_info } else { self.show_model_info };
        // F or F11 toggles fullscreen (the action is executed by JavaScript)
        let fullscreen_key = (keys.key_f || keys.key_f11) && !(prev.key_f || prev.key_f11);
        let fullscreen = if fullscreen_key { !self.is_fullscreen } else { self.is_fullscreen };
        let requested = self.fullscreen_requested || fullscreen_key;
        let clicked = keys.mouse_left && !prev.mouse_left;
        self.speed_multiplier = speed;
        self.game_mode = mode;
        self.show_model_info = info;
        self.is_fullscreen = fullscreen;
        self.fullscreen_requested = requested;
        self.previous = ControlInput { space: prev.space, escape: prev.escape, ..keys };
        clicked
    }

    fn restart_in(&mut self, mode: GameMode)
        ensures
            *final(self) == old(self).restarted_in(mode),
    {
        self.game_mode = mode;
        self.left_score = 0;
        self.right_score = 0;
        self.rally_count = 0;
        self.state = GameState::Playing;
    }

    /// Applies a click on the HUD. When the info panel is shown, the click only
    /// dismisses it; otherwise the button that was hit acts: a mode button restarts
    /// the game in that mode, a speed button sets the speed, the AI buttons step the
    /// difficulty `ai_level` (of the AI, if there is one) within 0 to 9, Download
    /// requests the model, Info shows the panel, and Sound toggles the sound.
    pub fn apply_hud_click(&mut self, hit: Option<HudButton>, ai_level: Option<u8>) -> (e: HudClickEffect)
        ensures
            (*final(self), e) == old(self).after_hud_click(hit, ai_level),
    {
        let none = HudClickEffect { restarted: false, ai_level: None, sound_toggled: false };
        // If info panel is visible, clicking anywhere dismisses it
        if self.show_model_info {
            self.show_model_info = false;
            return none;
        }
        match hit {
            Some(HudButton::ModeDemo) => {
                self.restart_in(GameMode::Demo);
                HudClickEffect { restarted: true, ..none }
            },
            Some(HudButton::Mode1P) => {
                self.restart_in(GameMode::SinglePlayer);
                HudClickEffect { restarted: true, ..none }
            },
            Some(HudButton::Mode2P) => {
                self.restart_in(GameMode::TwoPlayer);
                HudClickEffect { restarted: true, ..none }
            },
            Some(HudButton::Speed1x) => {
                self.speed_multiplier = SpeedMultiplier::Normal;
                none
            },
            Some(HudButton::Speed5x) => {
                self.speed_multiplier = SpeedMultiplier::Fast5x;
                none
            },
            Some(HudButton::Speed10x) => {
                self.speed_multiplier = SpeedMultiplier::Fast10x;
                none
            },
            Some(HudButton::Speed50x) => {
                self.speed_multiplier = SpeedMultiplier::Fast50x;
                none
            },
            Some(HudButton::Speed100x) => {
                self.speed_multiplier = SpeedMultiplier::Fast100x;
                none
            },
            Some(HudButton::Speed1000x) => {
                self.speed_multiplier = SpeedMultiplier::Fast1000x;
                none
            },
            Some(HudButton::AiDecrease) => {
                match ai_level {
                    Some(level) => if level > 0 {
                        HudClickEffect { ai_level: Some(level - 1), ..none }
                    } else {
                        none
                    },
                    None => none,
                }
            },
            Some(HudButton::AiIncrease) => {
                match ai_level {
                    Some(level) => if level < 9 {
                        HudClickEffect { ai_level: Some(level + 1), ..none }
                    } else {
                        none
                    },
                    None => none,
                }
            },
            Some(HudButton::Download) => {
                self.download_requested = true;
                none
            },
            Some(HudButton::ModelInfo) => {
                self.show_model_info = !self.show_model_info;
                none
            },
            Some(HudButton::SoundToggle) => {
                self.sound_enabled = !self.sound_enabled;
                HudClickEffect { sound_toggled: true, ..none }
            },
            None => none,
        }
    }

    /// Runs the state machine for this frame on Space and Escape presses (edges):
    /// Space starts from the menu or after game over (restarting the game), Escape
    /// pauses, Space or Escape resumes. The simulation runs only while playing.
    pub fn advance_state(&mut self, keys: ControlInput) -> (step: StateStep)
        ensures
            ({
                let space = keys.space && !old(self).previous.space;
                let escape = keys.escape && !old(self).previous.escape;
                let t = state_transition(old(self).state, space, escape);
                &&& final(self).state == t.0
                &&& step.restarted == t.1
                &&& step.simulate == t.2
            }),
            step.restarted ==> final(self).left_score == 0 && final(self).right_score == 0
                && final(self).rally_count == 0,
            !step.restarted ==> final(self).left_score == old(self).left_score
                && final(self).right_score == old(self).right_score
                && final(self).rally_count == old(self).rally_count,
            final(self).previous == (ControlInput { space: keys.space, escape: keys.escape, ..old(self).previous }),
            final(self).speed_multiplier == old(self).speed_multiplier,
            final(self).game_mode == old(self).game_mode,
            final(self).high_score == old(self).high_score,
            final(self).winning_score == old(self).winning_score,
            final(self).show_model_info == old(self).show_model_info,
            final(self).download_requested == old(self).download_requested,
            final(self).sound_enabled == old(self).sound_enabled,
            final(self).fullscreen_requested == old(self).fullscreen_requested,
            final(self).is_fullscreen == old(self).is_fullscreen,
    {
        let space_just_pressed = keys.space && !self.previous.space;
        let escape_just_pressed = keys.escape && !self.previous.escape;
        self.previous = ControlInput { space: keys.space, escape: keys.escape, ..self.previous };
        match self.state {
            GameState::Menu => {
                if space_just_pressed {
                    self.reset_game();
                    self.state = GameState::Playing;
                    return StateStep { restarted: true, simulate: false };
                }
                StateStep { restarted: false, simulate: false }
            },
            GameState::Playing => {
                if escape_just_pressed {
                    self.state = GameState::Paused;
                    return StateStep { restarted: false, simulate: false };
                }
                StateStep { restarted: false, simulate: true }
            },
            GameState::Paused => {
                if space_just_pressed || escape_just_pressed {
                    self.state = GameState::Playing;
                }
                StateStep { restarted: false, simulate: false }
            },
            GameState::GameOver => {
                if space_just_pressed {
                    self.reset_game();
                    self.state = GameState::Playing;
                    return StateStep { restarted: true, simulate: false };
                }
                StateStep { restarted: false, simulate: false }
            },
        }
    }

    /// Whether the left side won: its score reached the winning score.
    pub fn left_won(&self) -> (b: bool)
        ensures
            b == (self.left_score >= self.winning_score),
    {
        self.left_score >= self.winning_score
    }

    /// Records a paddle hit: the rally grows by one. Returns whether the rally
    /// reached a milestone (a multiple of 5 hits).
    pub fn record_paddle_hit(&mut self) -> (milestone: bool)
        requires
            old(self).rally_count < u32::MAX,
        ensures
            *final(self) == (PongControl { rally_count: (old(self).rally_count + 1) as u32, ..*old(self) }),
            milestone == (final(self).rally_count % 5 == 0),
    {
        self.rally_count = self.rally_count + 1;
        self.rally_count % 5 == 0
    }

    /// Records a goal for the right side (`right_scored`) or the left side: that
    /// side's score grows by one, the finished rally counts toward the high score,
    /// and a new rally begins. The game is over, and the state becomes game over,
    /// when the scoring side reaches the winning score. Returns whether it is over.
    #[verifier::rlimit(100)]
    pub fn record_goal(&mut self, right_scored: bool) -> (game_over: bool)
        requires
            right_scored ==> old(self).right_score < u32::MAX,
            !right_scored ==> old(self).left_score < u32::MAX,
        ensures
            (*final(self), game_over) == old(self).after_goal(right_scored),
    {
        let left = if right_scored { self.left_score } else { self.left_score + 1 };
        let right = if right_scored { self.right_score + 1 } else { self.right_score };
        let high = if self.rally_count > self.high_score { self.rally_count } else { self.high_score };
        let over = (if right_scored { right } else { left }) >= self.winning_score;
        self.left_score = left;
        self.right_score = right;
        self.high_score = high;
        self.rally_count = 0;
        if over {
            self.state = GameState::GameOver;
        }
        over
    }

    /// Takes the JavaScript actions this frame requested: a model download, then a
    /// fullscreen change (enter or exit, following the fullscreen state). The
    /// requests are consumed.
    pub fn take_actions(&mut self) -> (actions: Vec<JsAction>)
        ensures
            actions@.len() == (if old(self).download_requested { 1int } else { 0 })
                + (if old(self).fullscreen_requested { 1int } else { 0 }),
            old(self).download_requested ==> actions@[0] == JsAction::DownloadAiModel,
            old(self).fullscreen_requested ==> actions@.last() == (if old(self).is_fullscreen {
                JsAction::EnterFullscreen
            } else {
                JsAction::ExitFullscreen
            }),
            *final(self) == (PongControl {
                download_requested: false,
                fullscreen_requested: false,
                ..*old(self)
            }),
    {
        let mut actions: Vec<JsAction> = Vec::new();
        if self.download_requested {
            actions.push(JsAction::DownloadAiModel);
            self.download_requested = false;
        }
        if self.fullscreen_requested {
            if self.is_fullscreen {
                actions.push(JsAction::EnterFullscreen);
            } else {
                actions.push(JsAction::ExitFullscreen);
            }
            self.fullscreen_requested = false;
        }
        actions
    }
}

/// The high score never decreases, and after a goal it is at least as long as
/// the rally that just ended; the next rally starts from zero.
pub proof fn lemma_high_score_monotone(c: PongControl, right_scored: bool)
    ensures
        c.after_goal(right_scored).0.high_score >= c.high_score,
        c.after_goal(right_scored).0.high_score >= c.rally_count,
        c.after_goal(right_scored).0.rally_count == 0,
{
}

/// A goal ends the game exactly when the side that scored reaches the winning
/// score; the other side's score is untouched.
pub proof fn lemma_game_over_at_winning_score(c: PongControl, right_scored: bool)
    requires
        right_scored ==> c.right_score < u32::MAX,
        !right_scored ==> c.left_score < u32::MAX,
    ensures
        c.after_goal(right_scored).1 == (if right_scored { c.right_score + 1 } else { c.left_score + 1 }
            >= c.winning_score),
        c.after_goal(right_scored).1 ==> c.after_goal(right_scored).0.state == GameState::GameOver,
        right_scored ==> c.after_goal(right_scored).0.left_score == c.left_score,
        !right_scored ==> c.after_goal(right_scored).0.right_score == c.right_score,
        right_scored ==> c.after_goal(right_scored).0.right_score == c.right_score + 1,
        !right_scored ==> c.after_goal(right_scored).0.left_score == c.left_score + 1,
        !c.after_goal(right_scored).1 ==> c.after_goal(right_scored).0.state == c.state,
{
}

/// The simulation runs only in a frame that starts and ends in the playing
/// state; Escape pauses a running game and Space or Escape resumes it.
pub proof fn lemma_simulation_only_while_playing(s: GameState, space: bool, escape: bool)
    ensures
        state_transition(s, space, escape).2 ==> s == GameState::Playing
            && state_transition(s, space, escape).0 == GameState::Playing,
        state_transition(GameState::Playing, space, true).0 == GameState::Paused,
        (space || escape) ==> state_transition(GameState::Paused, space, escape).0 == GameState::Playing,
        !space && !escape ==> state_transition(s, space, escape).0 == s,
{
}

/// Holding the same keys for another frame does nothing more: shortcuts act once
/// per key press, and a held mouse button is one click.
pub proof fn lemma_held_keys_act_once(c: PongControl, keys: ControlInput)
    ensures
        ({
            let (c1, _) = c.after_shortcuts(keys);
            let (c2, clicked) = c1.after_shortcuts(keys);
            c2 == c1 && !clicked
        }),
{
}

/// While the model info panel is shown, a click anywhere only closes it.
pub proof fn lemma_info_panel_absorbs_click(c: PongControl, hit: Option<HudButton>, ai_level: Option<u8>)
    requires
        c.show_model_info,
    ensures
        c.after_hud_click(hit, ai_level).0 == (PongControl { show_model_info: false, ..c }),
        !c.after_hud_click(hit, ai_level).1.restarted,
        c.after_hud_click(hit, ai_level).1.ai_level is None,
{
}

/// The AI difficulty buttons keep the difficulty within 0 to 9.
pub proof fn lemma_ai_level_in_range(c: PongControl, hit: Option<HudButton>, l: u8)
    requires
        l <= 9,
    ensures
        c.after_hud_click(hit, Some(l)).1.ai_level matches Some(n) ==> n <= 9,
{
}

} // verus!

verus! {

/// Space restarts the game exactly from the menu and after game over; while
/// playing only Escape acts, so without an Escape press the game keeps playing and
/// the simulation runs, whatever Space does.
pub proof fn lemma_space_restarts_only_from_menu_or_game_over(s: GameState, space: bool, escape: bool)
    ensures
        state_transition(s, space, escape).1 <==> (space && (s == GameState::Menu || s == GameState::GameOver)),
        state_transition(GameState::Playing, space, false) == (GameState::Playing, false, true),
{
}

/// Where each frame leads: the game plays on when it was playing and Escape was
/// not pressed, when it was paused and Space or Escape was pressed, or when it was
/// at the menu or over and Space was pressed; it is paused when Escape was pressed
/// while playing or when it stays paused; otherwise it stays where it was. The
/// simulation runs exactly when it was playing and Escape was not pressed.
pub proof fn lemma_state_machine(s: GameState, space: bool, escape: bool)
    ensures
        (state_transition(s, space, escape).0 == GameState::Playing) <==> (
            (s == GameState::Playing && !escape)
            || (s == GameState::Paused && (space || escape))
            || ((s == GameState::Menu || s == GameState::GameOver) && space)),
        (state_transition(s, space, escape).0 == GameState::Paused) <==> (
            (s == GameState::Playing && escape) || (s == GameState::Paused && !space && !escape)),
        (s == GameState::Menu || s == GameState::GameOver) && !space
            ==> state_transition(s, space, escape).0 == s,
        state_transition(s, space, escape).2 <==> (s == GameState::Playing && !escape),
{
}

/// The toggle shortcuts act on a fresh press only: I flips the info panel, F or
/// F11 flips fullscreen and requests the change, M moves to the next mode, D
/// switches between demo and single player; a left click is reported once.
pub proof fn lemma_toggle_shortcuts(c: PongControl, keys: ControlInput)
    ensures
        ({
            let p = c.previous;
            let (d, clicked) = c.after_shortcuts(keys);
            &&& (keys.key_i && !p.key_i) ==> d.show_model_info == !c.show_model_info
            &&& !(keys.key_i && !p.key_i) ==> d.show_model_info == c.show_model_info
            &&& ((keys.key_f || keys.key_f11) && !(p.key_f || p.key_f11))
                ==> d.is_fullscreen == !c.is_fullscreen && d.fullscreen_requested
            &&& !((keys.key_f || keys.key_f11) && !(p.key_f || p.key_f11))
                ==> d.is_fullscreen == c.is_fullscreen && d.fullscreen_requested == c.fullscreen_requested
            &&& ((keys.key_m && !p.key_m) && !(keys.key_d && !p.key_d)) ==> d.game_mode == c.game_mode.successor()
            &&& (!(keys.key_m && !p.key_m) && (keys.key_d && !p.key_d)) ==> d.game_mode == (
                if c.game_mode == GameMode::Demo { GameMode::SinglePlayer } else { GameMode::Demo })
            &&& (!(keys.key_m && !p.key_m) && !(keys.key_d && !p.key_d)) ==> d.game_mode == c.game_mode
            &&& clicked == (keys.mouse_left && !p.mouse_left)
            &&& d.state == c.state && d.left_score == c.left_score && d.right_score == c.right_score
        }),
{
}

/// When exactly one speed key `k` (1 to 6) goes down in a frame, the speed becomes
/// the `k`-th speed, the one `SpeedMultiplier::from_key(k)` names (key 5 is 100x);
/// when none goes down, the speed is kept.
pub proof fn lemma_speed_key_selects_its_speed(c: PongControl, keys: ControlInput, k: int)
    requires
        0 <= k <= 6,
        (keys.key_1 && !c.previous.key_1) == (k == 1),
        (keys.key_2 && !c.previous.key_2) == (k == 2),
        (keys.key_3 && !c.previous.key_3) == (k == 3),
        (keys.key_4 && !c.previous.key_4) == (k == 4),
        (keys.key_5 && !c.previous.key_5) == (k == 5),
        (keys.key_6 && !c.previous.key_6) == (k == 6),
    ensures
        k >= 1 ==> c.after_shortcuts(keys).0.speed_multiplier == speed_order()[k - 1],
        k >= 1 ==> c.after_shortcuts(keys).0.speed_multiplier.multiplier()
            == seq![1u32, 5u32, 10u32, 50u32, 100u32, 1000u32][k - 1],
        k == 0 ==> c.after_shortcuts(keys).0.speed_multiplier == c.speed_multiplier,
{
}

/// With the info panel hidden, a mode button restarts the game in the mode it
/// names: scores and rally reset, playing, and the effect reports the restart.
pub proof fn lemma_mode_button_restarts_in_its_mode(c: PongControl, ai_level: Option<u8>)
    requires
        !c.show_model_info,
    ensures
        ({
            let (d, e) = c.after_hud_click(Some(HudButton::ModeDemo), ai_level);
            d.game_mode == GameMode::Demo && d.state == GameState::Playing && e.restarted
                && d.left_score == 0 && d.right_score == 0 && d.rally_count == 0
        }),
        ({
            let (d, e) = c.after_hud_click(Some(HudButton::Mode1P), ai_level);
            d.game_mode == GameMode::SinglePlayer && d.state == GameState::Playing && e.restarted
                && d.left_score == 0 && d.right_score == 0 && d.rally_count == 0
        }),
        ({
            let (d, e) = c.after_hud_click(Some(HudButton::Mode2P), ai_level);
            d.game_mode == GameMode::TwoPlayer && d.state == GameState::Playing && e.restarted
                && d.left_score == 0 && d.right_score == 0 && d.rally_count == 0
        }),
{
}

/// With the info panel hidden, a speed button sets the speed it is labelled
/// with, and the AI buttons step the difficulty by one within 0 to 9.
pub proof fn lemma_speed_and_ai_buttons(c: PongControl, l: u8)
    requires
        !c.show_model_info,
    ensures
        c.after_hud_click(Some(HudButton::Speed1x), None).0.speed_multiplier.multiplier() == 1,
        c.after_hud_click(Some(HudButton::Speed5x), None).0.speed_multiplier.multiplier() == 5,
        c.after_hud_click(Some(HudButton::Speed10x), None).0.speed_multiplier.multiplier() == 10,
        c.after_hud_click(Some(HudButton::Speed50x), None).0.speed_multiplier.multiplier() == 50,
        c.after_hud_click(Some(HudButton::Speed100x), None).0.speed_multiplier.multiplier() == 100,
        c.after_hud_click(Some(HudButton::Speed1000x), None).0.speed_multiplier.multiplier() == 1000,
        c.after_hud_click(Some(HudButton::AiIncrease), Some(l)).1.ai_level
            == (if l < 9 { Some((l + 1) as u8) } else { None::<u8> }),
        c.after_hud_click(Some(HudButton::AiDecrease), Some(l)).1.ai_level
            == (if l > 0 { Some((l - 1) as u8) } else { None::<u8> }),
        c.after_hud_click(Some(HudButton::AiIncrease), None).1.ai_level is None,
{
}

} // verus!
