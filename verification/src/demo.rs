//! Demo mode and game mode management: the physics speed multiplier (1x to
//! 1000x, with a photosensitivity warning above 10x), the Demo / 1P / 2P game
//! modes, and the footer attribution labels.
use vstd::prelude::*;
use crate::text::{append_decimal, append_str, decimal};

verus! {

/// Speed multiplier for physics simulation.
///
/// Higher speeds showcase SIMD/GPU acceleration by running multiple
/// physics updates per render frame.
#[derive(Debug, Clone, Copy, PartialEq, Eq, Structural)]
pub enum SpeedMultiplier {
    /// Normal speed: 60 physics updates/sec
    Normal,
    /// 5x speed: 300 physics updates/sec
    Fast5x,
    /// 10x speed: 600 physics updates/sec
    Fast10x,
    /// 50x speed: 3,000 physics updates/sec
    Fast50x,
    /// 100x speed: 6,000 physics updates/sec
    Fast100x,
    /// 1000x speed: 60,000 physics updates/sec
    Fast1000x,
}

/// The speeds in their cycling order.
pub open spec fn speed_order() -> Seq<SpeedMultiplier> {
    seq![
        SpeedMultiplier::Normal,
        SpeedMultiplier::Fast5x,
        SpeedMultiplier::Fast10x,
        SpeedMultiplier::Fast50x,
        SpeedMultiplier::Fast100x,
        SpeedMultiplier::Fast1000x,
    ]
}

impl SpeedMultiplier {
    /// The numeric multiplier of a speed.
    pub open spec fn multiplier(self) -> u32 {
        match self {
            SpeedMultiplier::Normal => 1,
            SpeedMultiplier::Fast5x => 5,
            SpeedMultiplier::Fast10x => 10,
            SpeedMultiplier::Fast50x => 50,
            SpeedMultiplier::Fast100x => 100,
            SpeedMultiplier::Fast1000x => 1000,
        }
    }

    /// The display label of a speed.
    pub open spec fn label_text(self) -> Seq<char> {
        match self {
            SpeedMultiplier::Normal => "1x"@,
            SpeedMultiplier::Fast5x => "5x"@,
            SpeedMultiplier::Fast10x => "10x"@,
            SpeedMultiplier::Fast50x => "50x"@,
            SpeedMultiplier::Fast100x => "100x"@,
            SpeedMultiplier::Fast1000x => "1000x"@,
        }
    }

    /// The speed that follows this one when cycling.
    pub open spec fn successor(self) -> SpeedMultiplier {
        match self {
            SpeedMultiplier::Normal => SpeedMultiplier::Fast5x,
            SpeedMultiplier::Fast5x => SpeedMultiplier::Fast10x,
            SpeedMultiplier::Fast10x => SpeedMultiplier::Fast50x,
            SpeedMultiplier::Fast50x => SpeedMultiplier::Fast100x,
            SpeedMultiplier::Fast100x => SpeedMultiplier::Fast1000x,
            SpeedMultiplier::Fast1000x => SpeedMultiplier::Normal,
        }
    }

    /// Returns the numeric multiplier value.
    pub fn value(self) -> (v: u32)
        ensures
            v == self.multiplier(),
    {
        match self {
            SpeedMultiplier::Normal => 1,
            SpeedMultiplier::Fast5x => 5,
            SpeedMultiplier::Fast10x => 10,
            SpeedMultiplier::Fast50x => 50,
            SpeedMultiplier::Fast100x => 100,
            SpeedMultiplier::Fast1000x => 1000,
        }
    }

    /// Returns true if this speed requires a photosensitivity warning.
    ///
    /// Speeds above 10x may cause high-frequency visual flashing.
    pub fn requires_warning(self) -> (b: bool)
        ensures
            b <==> (self is Fast50x || self is Fast100x || self is Fast1000x),
    {
        match self {
            SpeedMultiplier::Fast50x | SpeedMultiplier::Fast100x | SpeedMultiplier::Fast1000x => true,
            _ => false,
        }
    }

    /// Returns the display label for this speed.
    pub fn label(self) -> (s: &'static str)
        ensures
            s@ == self.label_text(),
    {
        match self {
            SpeedMultiplier::Normal => "1x",
            SpeedMultiplier::Fast5x => "5x",
            SpeedMultiplier::Fast10x => "10x",
            SpeedMultiplier::Fast50x => "50x",
            SpeedMultiplier::Fast100x => "100x",
            SpeedMultiplier::Fast1000x => "1000x",
        }
    }

    /// Cycles to the next speed multiplier.
    pub fn next(self) -> (n: Self)
        ensures
            n == self.successor(),
    {
        match self {
            SpeedMultiplier::Normal => SpeedMultiplier::Fast5x,
            SpeedMultiplier::Fast5x => SpeedMultiplier::Fast10x,
            SpeedMultiplier::Fast10x => SpeedMultiplier::Fast50x,
            SpeedMultiplier::Fast50x => SpeedMultiplier::Fast100x,
            SpeedMultiplier::Fast100x => SpeedMultiplier::Fast1000x,
            SpeedMultiplier::Fast1000x => SpeedMultiplier::Normal,
        }
    }

    /// Creates from keyboard shortcut (1-6).
    pub fn from_key(key: u8) -> (r: Option<Self>)
        ensures
            1 <= key <= 6 ==> r == Some(speed_order()[key - 1]),
            !(1 <= key <= 6) ==> r is None,
    {
        match key {
            1 => Some(SpeedMultiplier::Normal),
            2 => Some(SpeedMultiplier::Fast5x),
            3 => Some(SpeedMultiplier::Fast10x),
            4 => Some(SpeedMultiplier::Fast50x),
            5 => Some(SpeedMultiplier::Fast100x),
            6 => Some(SpeedMultiplier::Fast1000x),
            _ => None,
        }
    }

    /// Returns all speed multipliers in order.
    pub fn all() -> (a: [Self; 6])
        ensures
            a@ == speed_order(),
    {
        let a = [
            SpeedMultiplier::Normal,
            SpeedMultiplier::Fast5x,
            SpeedMultiplier::Fast10x,
            SpeedMultiplier::Fast50x,
            SpeedMultiplier::Fast100x,
            SpeedMultiplier::Fast1000x,
        ];
        assert(a@ =~= speed_order());
        a
    }
}

impl Default for SpeedMultiplier {
    /// Normal speed.
    fn default() -> (s: Self)
        ensures
            s == SpeedMultiplier::Normal,
    {
        SpeedMultiplier::Normal
    }
}

/// A speed needs the photosensitivity warning exactly when it runs faster than 10x.
pub proof fn lemma_warning_above_ten(s: SpeedMultiplier)
    ensures
        (s is Fast50x || s is Fast100x || s is Fast1000x) <==> s.multiplier() > 10,
{
}

/// Cycling with `next` visits every speed, in the order `all` lists them, and
/// comes back to the start after six steps.
pub proof fn lemma_speed_cycle(i: int)
    requires
        0 <= i < 6,
    ensures
        speed_order()[i].successor() == speed_order()[(i + 1) % 6],
        speed_order()[i].successor().successor().successor().successor().successor().successor()
            == speed_order()[i],
{
}

/// The speed keys 1 to 6 pick distinct speeds whose multipliers strictly increase.
pub proof fn lemma_speed_order_increasing(i: int, j: int)
    requires
        0 <= i < j < 6,
    ensures
        speed_order()[i].multiplier() < speed_order()[j].multiplier(),
        speed_order()[i] != speed_order()[j],
{
}

/// Game mode selection.
///
/// Determines which paddles are controlled by humans vs AI.
#[derive(Debug, Clone, Copy, PartialEq, Eq, Structural)]
pub enum GameMode {
    /// Demo mode: AI vs AI (attract mode)
    Demo,
    /// Single player: AI (left) vs Human (right, arrow keys) - DEFAULT
    SinglePlayer,
    /// Two player: Human (left, W/S) vs Human (right, Up/Down arrows)
    TwoPlayer,
}

impl GameMode {
    /// The mode that follows this one when cycling.
    pub open spec fn successor(self) -> GameMode {
        match self {
            GameMode::Demo => GameMode::SinglePlayer,
            GameMode::SinglePlayer => GameMode::TwoPlayer,
            GameMode::TwoPlayer => GameMode::Demo,
        }
    }

    /// Whether the left paddle is AI-controlled in this mode.
    pub open spec fn left_ai(self) -> bool {
        self is Demo || self is SinglePlayer
    }

    /// Whether the right paddle is AI-controlled in this mode.
    pub open spec fn right_ai(self) -> bool {
        self is Demo
    }

    /// Returns the enum variant name (Demo, SinglePlayer, TwoPlayer).
    /// Used for API/debug output.
    pub fn name(self) -> (s: &'static str)
        ensures
            s@ == (match self {
                GameMode::Demo => "Demo"@,
                GameMode::SinglePlayer => "SinglePlayer"@,
                GameMode::TwoPlayer => "TwoPlayer"@,
            }),
    {
        match self {
            GameMode::Demo => "Demo",
            GameMode::SinglePlayer => "SinglePlayer",
            GameMode::TwoPlayer => "TwoPlayer",
        }
    }

    /// Returns the display label for this mode.
    pub fn label(self) -> (s: &'static str)
        ensures
            s@ == (match self {
                GameMode::Demo => "Demo"@,
                GameMode::SinglePlayer => "1 Player"@,
                GameMode::TwoPlayer => "2 Player"@,
            }),
    {
        match self {
            GameMode::Demo => "Demo",
            GameMode::SinglePlayer => "1 Player",
            GameMode::TwoPlayer => "2 Player",
        }
    }

    /// Returns the short label for buttons.
    pub fn short_label(self) -> (s: &'static str)
        ensures
            s@ == (match self {
                GameMode::Demo => "Demo"@,
                GameMode::SinglePlayer => "1P"@,
                GameMode::TwoPlayer => "2P"@,
            }),
    {
        match self {
            GameMode::Demo => "Demo",
            GameMode::SinglePlayer => "1P",
            GameMode::TwoPlayer => "2P",
        }
    }

    /// Returns true if left paddle is AI-controlled.
    /// In Demo and SinglePlayer modes, the left paddle is AI.
    pub fn left_is_ai(self) -> (b: bool)
        ensures
            b == self.left_ai(),
    {
        match self {
            GameMode::Demo | GameMode::SinglePlayer => true,
            GameMode::TwoPlayer => false,
        }
    }

    /// Returns true if right paddle is AI-controlled.
    /// Only in Demo mode is the right paddle AI.
    pub fn right_is_ai(self) -> (b: bool)
        ensures
            b == self.right_ai(),
    {
        match self {
            GameMode::Demo => true,
            _ => false,
        }
    }

    /// Returns the label for the left paddle: "AI" when the AI plays it,
    /// otherwise the human player and keys (P2, W/S in two-player mode).
    pub fn left_paddle_label(self) -> (s: &'static str)
        ensures
            self.left_ai() ==> s@ == "AI"@,
            !self.left_ai() ==> s@ == "P2 [W/S]"@,
    {
        match self {
            GameMode::Demo | GameMode::SinglePlayer => "AI",
            GameMode::TwoPlayer => "P2 [W/S]",
        }
    }

    /// Returns the label for the right paddle: "AI" in demo mode, otherwise
    /// the human player P1 on the arrow keys.
    pub fn right_paddle_label(self) -> (s: &'static str)
        ensures
            self.right_ai() ==> s@ == "AI"@,
            !self.right_ai() ==> s@ == "P1 [^/v]"@,
    {
        match self {
            GameMode::Demo => "AI",
            GameMode::SinglePlayer | GameMode::TwoPlayer => "P1 [^/v]",
        }
    }

    /// Cycles to the next game mode.
    pub fn next(self) -> (n: Self)
        ensures
            n == self.successor(),
    {
        match self {
            GameMode::Demo => GameMode::SinglePlayer,
            GameMode::SinglePlayer => GameMode::TwoPlayer,
            GameMode::TwoPlayer => GameMode::Demo,
        }
    }

    /// Returns all game modes in order.
    pub fn all() -> (a: [Self; 3])
        ensures
            a@ == seq![GameMode::Demo, GameMode::SinglePlayer, GameMode::TwoPlayer],
    {
        let a = [GameMode::Demo, GameMode::SinglePlayer, GameMode::TwoPlayer];
        assert(a@ =~= seq![GameMode::Demo, GameMode::SinglePlayer, GameMode::TwoPlayer]);
        a
    }
}

impl Default for GameMode {
    /// Single player, so users can play immediately.
    fn default() -> (m: Self)
        ensures
            m == GameMode::SinglePlayer,
    {
        GameMode::SinglePlayer
    }
}

/// Cycling game modes returns to the start after three steps and visits each
/// mode once; whenever the right paddle is AI-controlled, so is the left one.
pub proof fn lemma_game_mode_cycle(m: GameMode)
    ensures
        m.successor().successor().successor() == m,
        m.successor() != m,
        m.successor().successor() != m,
        m.right_ai() ==> m.left_ai(),
{
}

/// Attribution information for footer display.
#[derive(Debug, Clone)]
pub struct Attribution {
    /// Engine name and version
    pub engine_version: String,
    /// GitHub repository URL
    pub github_url: String,
    /// Organization website URL
    pub org_url: String,
    /// AI model filename
    pub model_filename: String,
    /// AI model size in bytes
    pub model_size: u32,
}

impl Default for Attribution {
    fn default() -> (a: Self)
        ensures
            a.engine_version@ == "Jugar Engine v0.1.0"@,
            a.github_url@ == "https://github.com/paiml/jugar"@,
            a.org_url@ == "https://paiml.com"@,
            a.model_filename@ == "pong-ai-v1.apr"@,
            a.model_size == 491,
    {
        Attribution {
            engine_version: String::from_str("Jugar Engine v0.1.0"),
            github_url: String::from_str("https://github.com/paiml/jugar"),
            org_url: String::from_str("https://paiml.com"),
            model_filename: String::from_str("pong-ai-v1.apr"),
            model_size: 491,
        }
    }
}

impl Attribution {
    /// Returns the GitHub link label.
    pub fn github_label(&self) -> (s: String)
        ensures
            s@ == "github.com/paiml/jugar"@,
    {
        String::from_str("github.com/paiml/jugar")
    }

    /// Returns the organization link label.
    pub fn org_label(&self) -> (s: String)
        ensures
            s@ == "paiml.com"@,
    {
        String::from_str("paiml.com")
    }

    /// Returns the model download label: `"<filename> (<size> bytes)"`.
    pub fn model_label(&self) -> (s: String)
        ensures
            s@ == self.model_filename@ + " ("@ + decimal(self.model_size as nat) + " bytes)"@,
    {
        let mut s = self.model_filename.clone();
        append_str(&mut s, " (");
        append_decimal(&mut s, self.model_size as u64);
        append_str(&mut s, " bytes)");
        s
    }
}

} // verus!
