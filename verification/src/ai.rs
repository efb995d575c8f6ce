//! The AI opponent's model metadata, player metrics for Flow Theory
//! (Csikszentmihalyi) difficulty adjustment, decision states for the
//! explainability widget, and its deterministic xorshift64 generator.
use vstd::prelude::*;

verus! {

/// Model metadata for the `.apr` file format.
#[derive(Debug, Clone)]
pub struct ModelMetadata {
    /// Model name
    pub name: String,
    /// Semantic version
    pub version: String,
    /// Model description
    pub description: String,
    /// Author/organization
    pub author: String,
    /// License (e.g., "MIT")
    pub license: String,
    /// Creation timestamp (ISO 8601)
    pub created: String,
}

impl Default for ModelMetadata {
    fn default() -> (m: Self)
        ensures
            m.name@ == "Pong AI v1"@,
            m.version@ == "1.0.0"@,
            m.description@ == "Flow Theory-based adaptive Pong opponent"@,
            m.author@ == "PAIML"@,
            m.license@ == "MIT"@,
            m.created@ == "2025-01-01T00:00:00Z"@,
    {
        ModelMetadata {
            name: String::from_str("Pong AI v1"),
            version: String::from_str("1.0.0"),
            description: String::from_str("Flow Theory-based adaptive Pong opponent"),
            author: String::from_str("PAIML"),
            license: String::from_str("MIT"),
            created: String::from_str("2025-01-01T00:00:00Z"),
        }
    }
}

/// The schema URL that a `.apr` model names when its file gives none.
pub fn default_schema() -> (s: String)
    ensures
        s@ == "https://paiml.com/schemas/apr/v1"@,
{
    String::from_str("https://paiml.com/schemas/apr/v1")
}

/// Determinism configuration for reproducible AI behavior.
#[derive(Debug, Clone)]
pub struct DeterminismConfig {
    /// Random seed for reproducibility
    pub seed: u64,
    /// RNG algorithm name
    pub rng_algorithm: String,
}

impl Default for DeterminismConfig {
    fn default() -> (c: Self)
        ensures
            c.seed == 12345,
            c.rng_algorithm@ == "xorshift64"@,
    {
        DeterminismConfig { seed: 12345, rng_algorithm: String::from_str("xorshift64") }
    }
}

/// One step of the xorshift64 generator (shifts 13, 7, 17).
pub open spec fn xorshift_step(x: u64) -> u64 {
    let a = x ^ (x << 13u64);
    let b = a ^ (a >> 7u64);
    b ^ (b << 17u64)
}

/// Advances the AI's deterministic xorshift64 state by one step.
pub fn xorshift64(state: u64) -> (next: u64)
    ensures
        next == xorshift_step(state),
{
    let mut s = state;
    s ^= s << 13u64;
    s ^= s >> 7u64;
    s ^= s << 17u64;
    s
}

/// A non-zero generator state never steps to zero, so a seeded generator never
/// gets stuck; the same state always steps to the same successor.
pub proof fn lemma_xorshift_nonzero(x: u64)
    requires
        x != 0,
    ensures
        xorshift_step(x) != 0,
{
    let a = x ^ (x << 13u64);
    let b = a ^ (a >> 7u64);
    assert(x != 0 ==> x ^ (x << 13u64) != 0) by (bit_vector);
    assert(a != 0 ==> a ^ (a >> 7u64) != 0) by (bit_vector);
    assert(b != 0 ==> b ^ (b << 17u64) != 0) by (bit_vector);
}

/// Flow state based on Csikszentmihalyi's three-channel model.
#[derive(Debug, Clone, Copy, PartialEq, Eq, Structural)]
pub enum FlowChannel {
    /// Player winning too easily - increase difficulty
    Boredom,
    /// Player optimally challenged - maintain difficulty
    Flow,
    /// Player struggling - decrease difficulty
    Anxiety,
}

impl FlowChannel {
    /// Returns a human-readable label.
    pub fn label(self) -> (s: &'static str)
        ensures
            s@ == (match self {
                FlowChannel::Boredom => "Bored (too easy)"@,
                FlowChannel::Flow => "In Flow (optimal)"@,
                FlowChannel::Anxiety => "Anxious (too hard)"@,
            }),
    {
        match self {
            FlowChannel::Boredom => "Bored (too easy)",
            FlowChannel::Flow => "In Flow (optimal)",
            FlowChannel::Anxiety => "Anxious (too hard)",
        }
    }
}

impl Default for FlowChannel {
    fn default() -> (c: Self)
        ensures
            c == FlowChannel::Flow,
    {
        FlowChannel::Flow
    }
}

/// The last `window` items of `s` (all of `s` when it is shorter).
pub open spec fn keep_last<T>(s: Seq<T>, window: nat) -> Seq<T> {
    if s.len() > window {
        s.subrange(s.len() - window, s.len() as int)
    } else {
        s
    }
}

/// Player performance metrics for flow state detection.
#[derive(Debug, Clone)]
pub struct PlayerMetrics {
    /// Recent point outcomes (true = player won)
    pub point_history: Vec<bool>,
    /// Total points won by player
    pub player_points: u32,
    /// Total points won by AI
    pub ai_points: u32,
    /// Current rally length
    pub current_rally: u32,
    /// Rally lengths history
    pub rally_history: Vec<u32>,
    /// Total player paddle hits
    pub player_hits: u32,
    /// Total player misses
    pub player_misses: u32,
}

impl PlayerMetrics {
    /// Whether the metrics are all zero with empty histories.
    pub open spec fn is_empty_metrics(&self) -> bool {
        &&& self.point_history@.len() == 0
        &&& self.rally_history@.len() == 0
        &&& self.player_points == 0
        &&& self.ai_points == 0
        &&& self.current_rally == 0
        &&& self.player_hits == 0
        &&& self.player_misses == 0
    }

    /// The invariant that recording hits and points with one window `w` keeps:
    /// both histories hold the last min(w, points played) points, and every point
    /// the AI won is a player miss.
    pub open spec fn window_consistent(&self, w: nat) -> bool {
        let played = self.player_points + self.ai_points;
        &&& self.point_history@.len() == min_int(w as int, played)
        &&& self.rally_history@.len() == min_int(w as int, played)
        &&& self.player_misses == self.ai_points
    }

    /// Creates new empty metrics.
    pub fn new() -> (m: Self)
        ensures
            m.is_empty_metrics(),
            forall|w: nat| #[trigger] m.window_consistent(w),
    {
        PlayerMetrics {
            point_history: Vec::new(),
            player_points: 0,
            ai_points: 0,
            current_rally: 0,
            rally_history: Vec::new(),
            player_hits: 0,
            player_misses: 0,
        }
    }

    /// Records a player hit (successfully returned the ball).
    pub fn record_hit(&mut self)
        requires
            old(self).player_hits < u32::MAX,
            old(self).current_rally < u32::MAX,
        ensures
            final(self).player_hits == old(self).player_hits + 1,
            final(self).current_rally == old(self).current_rally + 1,
            final(self).point_history@ == old(self).point_history@,
            final(self).rally_history@ == old(self).rally_history@,
            final(self).player_points == old(self).player_points,
            final(self).ai_points == old(self).ai_points,
            final(self).player_misses == old(self).player_misses,
            forall|w: nat| old(self).window_consistent(w) ==> #[trigger] final(self).window_consistent(w),
    {
        self.player_hits = self.player_hits + 1;
        self.current_rally = self.current_rally + 1;
    }

    /// Records that the player scored a point.
    pub fn record_player_scored(&mut self, window_size: usize)
        requires
            old(self).player_points < u32::MAX,
        ensures
            final(self).player_points == old(self).player_points + 1,
            final(self).point_history@ == keep_last(old(self).point_history@.push(true), window_size as nat),
            final(self).rally_history@ == keep_last(old(self).rally_history@.push(old(self).current_rally), window_size as nat),
            final(self).current_rally == 0,
            final(self).ai_points == old(self).ai_points,
            final(self).player_hits == old(self).player_hits,
            final(self).player_misses == old(self).player_misses,
            old(self).window_consistent(window_size as nat) ==> final(self).window_consistent(window_size as nat),
            window_size > 0 ==> final(self).point_history@.last() == true,
    {
        self.player_points = self.player_points + 1;
        self.point_history.push(true);
        self.finalize_rally(window_size);
    }

    /// Records that the AI scored a point (player missed).
    pub fn record_ai_scored(&mut self, window_size: usize)
        requires
            old(self).ai_points < u32::MAX,
            old(self).player_misses < u32::MAX,
        ensures
            final(self).ai_points == old(self).ai_points + 1,
            final(self).player_misses == old(self).player_misses + 1,
            final(self).point_history@ == keep_last(old(self).point_history@.push(false), window_size as nat),
            final(self).rally_history@ == keep_last(old(self).rally_history@.push(old(self).current_rally), window_size as nat),
            final(self).current_rally == 0,
            final(self).player_points == old(self).player_points,
            final(self).player_hits == old(self).player_hits,
            old(self).window_consistent(window_size as nat) ==> final(self).window_consistent(window_size as nat),
            window_size > 0 ==> final(self).point_history@.last() == false,
    {
        self.ai_points = self.ai_points + 1;
        self.player_misses = self.player_misses + 1;
        self.point_history.push(false);
        self.finalize_rally(window_size);
    }

    /// Finalizes the current rally (appending it to the rally history and
    /// starting a new one) and trims both histories to the last `window_size` entries.
    pub fn finalize_rally(&mut self, window_size: usize)
        ensures
            final(self).rally_history@ == keep_last(old(self).rally_history@.push(old(self).current_rally), window_size as nat),
            final(self).point_history@ == keep_last(old(self).point_history@, window_size as nat),
            final(self).current_rally == 0,
            final(self).player_points == old(self).player_points,
            final(self).ai_points == old(self).ai_points,
            final(self).player_hits == old(self).player_hits,
            final(self).player_misses == old(self).player_misses,
    {
        self.rally_history.push(self.current_rally);
        self.current_rally = 0;
        trim_front(&mut self.point_history, window_size);
        trim_front(&mut self.rally_history, window_size);
    }

    /// Resets all metrics.
    pub fn reset(&mut self)
        ensures
            final(self).is_empty_metrics(),
            forall|w: nat| #[trigger] final(self).window_consistent(w),
    {
        *self = PlayerMetrics::new();
    }
}

impl Default for PlayerMetrics {
    fn default() -> (m: Self)
        ensures
            m.is_empty_metrics(),
            forall|w: nat| #[trigger] m.window_consistent(w),
    {
        PlayerMetrics::new()
    }
}

/// Removes items from the front of `v` until at most `window` remain.
fn trim_front<T>(v: &mut Vec<T>, window: usize)
    ensures
        final(v)@ == keep_last(old(v)@, window as nat),
{
    let ghost orig = v@;
    while v.len() > window
        invariant
            v@.len() >= window ==> v@ == orig.subrange(orig.len() - v@.len(), orig.len() as int),
            v@.len() < window ==> v@ == orig,
            v@.len() <= orig.len(),
            orig.len() <= window ==> v@ == orig,
        decreases v.len(),
    {
        let _ = v.remove(0);
        assert(v@ =~= orig.subrange(orig.len() - v@.len(), orig.len() as int));
    }
    assert(orig.len() > window ==> v@ =~= orig.subrange(orig.len() - window, orig.len() as int));
}

/// The outcome histories never hold more than the window, and after a point
/// their last entry records that point (when the window is not empty).
pub proof fn lemma_history_window<T>(s: Seq<T>, x: T, window: nat)
    ensures
        keep_last(s.push(x), window).len() == if s.len() + 1 > window { window } else { s.len() + 1 },
        window > 0 ==> keep_last(s.push(x), window).last() == x,
{
}

/// AI decision state for explainability visualization.
#[derive(Debug, Clone, Copy, PartialEq, Eq, Structural)]
pub enum DecisionState {
    /// Ball moving away from AI - returning to center
    Idle,
    /// Ball approaching but within reaction delay window
    Reacting,
    /// Actively tracking and moving toward predicted position
    Tracking,
    /// At target position, waiting for ball
    Ready,
}

impl DecisionState {
    /// Returns a human-readable label for the decision state.
    pub fn label(self) -> (s: &'static str)
        ensures
            s@ == (match self {
                DecisionState::Idle => "Idle (centering)"@,
                DecisionState::Reacting => "Reacting (delay)"@,
                DecisionState::Tracking => "Tracking ball"@,
                DecisionState::Ready => "Ready (at target)"@,
            }),
    {
        match self {
            DecisionState::Idle => "Idle (centering)",
            DecisionState::Reacting => "Reacting (delay)",
            DecisionState::Tracking => "Tracking ball",
            DecisionState::Ready => "Ready (at target)",
        }
    }

    /// Returns a short code for compact display.
    pub fn code(self) -> (s: &'static str)
        ensures
            s@ == (match self {
                DecisionState::Idle => "IDLE"@,
                DecisionState::Reacting => "REACT"@,
                DecisionState::Tracking => "TRACK"@,
                DecisionState::Ready => "READY"@,
            }),
    {
        match self {
            DecisionState::Idle => "IDLE",
            DecisionState::Reacting => "REACT",
            DecisionState::Tracking => "TRACK",
            DecisionState::Ready => "READY",
        }
    }
}

impl DecisionState {
    /// The decision the AI is in: idle unless the ball approaches on the AI's
    /// half; then reacting while the reaction delay runs; then ready when the
    /// paddle is at its target; tracking otherwise.
    pub open spec fn classified(ball_approaching: bool, ball_on_ai_side: bool, in_reaction_delay: bool, at_target: bool) -> DecisionState {
        if !ball_approaching || !ball_on_ai_side {
            DecisionState::Idle
        } else if in_reaction_delay {
            DecisionState::Reacting
        } else if at_target {
            DecisionState::Ready
        } else {
            DecisionState::Tracking
        }
    }

    /// Classifies the AI's decision for a frame.
    pub fn classify(ball_approaching: bool, ball_on_ai_side: bool, in_reaction_delay: bool, at_target: bool) -> (s: Self)
        ensures
            s == DecisionState::classified(ball_approaching, ball_on_ai_side, in_reaction_delay, at_target),
    {
        if !ball_approaching || !ball_on_ai_side {
            DecisionState::Idle
        } else if in_reaction_delay {
            DecisionState::Reacting
        } else if at_target {
            DecisionState::Ready
        } else {
            DecisionState::Tracking
        }
    }
}

/// The highest difficulty level.
pub const MAX_DIFFICULTY: u8 = 9;

/// The smaller of two integers.
pub open spec fn min_int(a: int, b: int) -> int {
    if a <= b { a } else { b }
}

/// The position of the difficulty profile used for a level: the level clamped to
/// 0-9, and to the last profile when there are fewer (0 when there is none).
pub fn profile_index(level: u8, profile_count: usize) -> (i: usize)
    ensures
        profile_count > 0 ==> i < profile_count,
        i == (if profile_count > 0 {
            min_int(min_int(level as int, MAX_DIFFICULTY as int), profile_count - 1)
        } else {
            0
        }),
{
    let last: usize = if profile_count > 0 { profile_count - 1 } else { 0 };
    let l: usize = if level < MAX_DIFFICULTY { level as usize } else { MAX_DIFFICULTY as usize };
    if l < last { l } else { last }
}

impl Default for DecisionState {
    fn default() -> (s: Self)
        ensures
            s == DecisionState::Idle,
    {
        DecisionState::Idle
    }
}

} // verus!
