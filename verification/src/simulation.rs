//! Monte Carlo simulation testing: the test tiers (smoke, regression, full),
//! the game-state invariants on scores and rallies, and the timestamp that
//! names a failure replay.
use vstd::prelude::*;
use std::time::Duration;
use std::time::SystemTimeError;
use crate::text::{decimal, decimal_string, str_equals};

verus! {

/// Test tier for Monte Carlo simulation.
#[derive(Debug, Clone, Copy, PartialEq, Eq, Structural)]
pub enum TestTier {
    /// Smoke: 1 seed, deterministic (pre-commit)
    Smoke,
    /// Regression: 50 seeds, 95% confidence (on-merge)
    Regression,
    /// Full: 1000 seeds, 99% confidence (nightly)
    Full,
}

impl Default for TestTier {
    fn default() -> (t: Self)
        ensures
            t == TestTier::Smoke,
    {
        TestTier::Smoke
    }
}

/// The tier that a `TEST_TIER` setting names; anything else, or no setting,
/// selects the smoke tier for fast feedback.
pub open spec fn tier_named(name: Option<Seq<char>>) -> TestTier {
    match name {
        Some(n) => if n == "regression"@ {
            TestTier::Regression
        } else if n == "full"@ {
            TestTier::Full
        } else {
            TestTier::Smoke
        },
        None => TestTier::Smoke,
    }
}

impl TestTier {
    /// The tier selected by the value of the `TEST_TIER` setting (`None` where
    /// it is unset or not valid Unicode).
    pub fn from_tier_name(name: Option<&str>) -> (t: Self)
        ensures
            t == tier_named(
                match name {
                    Some(n) => Some(n@),
                    None => None,
                },
            ),
    {
        match name {
            Some(n) => {
                proof {
                    reveal_strlit("smoke");
                    reveal_strlit("regression");
                    reveal_strlit("full");
                }
                if str_equals(n, "smoke") {
                    assert("smoke"@.len() == 5 && "regression"@.len() == 10);
                    assert(n@ != "full"@ && n@ != "regression"@) by {
                        assert("smoke"@[0] != "full"@[0]);
                    }
                    TestTier::Smoke
                } else if str_equals(n, "regression") {
                    TestTier::Regression
                } else if str_equals(n, "full") {
                    TestTier::Full
                } else {
                    TestTier::Smoke
                }
            },
            None => TestTier::Smoke,
        }
    }
}

/// Invariant violation types.
#[derive(Debug, Clone, PartialEq, Eq, Structural)]
pub enum InvariantViolation {
    /// Ball position is NaN
    BallPositionNaN,
    /// Ball position is infinite
    BallPositionInfinite,
    /// Paddle is out of bounds
    PaddleOutOfBounds,
    /// Score overflow
    ScoreOverflow,
    /// Rally overflow
    RallyOverflow,
    /// Velocity is NaN
    VelocityNaN,
    /// Velocity is infinite
    VelocityInfinite,
}

impl InvariantViolation {
    /// The violation's message text.
    pub open spec fn message_text(&self) -> Seq<char> {
        match self {
            InvariantViolation::BallPositionNaN => "Ball position is NaN"@,
            InvariantViolation::BallPositionInfinite => "Ball position is infinite"@,
            InvariantViolation::PaddleOutOfBounds => "Paddle is out of bounds"@,
            InvariantViolation::ScoreOverflow => "Score overflow"@,
            InvariantViolation::RallyOverflow => "Rally overflow"@,
            InvariantViolation::VelocityNaN => "Velocity is NaN"@,
            InvariantViolation::VelocityInfinite => "Velocity is infinite"@,
        }
    }

    /// Returns the violation message.
    pub fn message(&self) -> (s: &'static str)
        ensures
            s@ == self.message_text(),
    {
        match self {
            InvariantViolation::BallPositionNaN => "Ball position is NaN",
            InvariantViolation::BallPositionInfinite => "Ball position is infinite",
            InvariantViolation::PaddleOutOfBounds => "Paddle is out of bounds",
            InvariantViolation::ScoreOverflow => "Score overflow",
            InvariantViolation::RallyOverflow => "Rally overflow",
            InvariantViolation::VelocityNaN => "Velocity is NaN",
            InvariantViolation::VelocityInfinite => "Velocity is infinite",
        }
    }
}

/// The highest score either side may reach in a valid game state.
pub const MAX_VALID_SCORE: u32 = 1000;

/// The longest rally a valid game state may count.
pub const MAX_VALID_RALLY: u32 = 100_000;

/// The counter invariants of a game state: each score is at most
/// `MAX_VALID_SCORE` (checked first) and the rally at most `MAX_VALID_RALLY`.
pub open spec fn counters_verdict(score_left: u32, score_right: u32, rally: u32) -> Result<
    (),
    InvariantViolation,
> {
    if score_left > MAX_VALID_SCORE || score_right > MAX_VALID_SCORE {
        Err(InvariantViolation::ScoreOverflow)
    } else if rally > MAX_VALID_RALLY {
        Err(InvariantViolation::RallyOverflow)
    } else {
        Ok(())
    }
}

/// Checks the score and rally invariants of a game state, the checks that
/// follow the position and velocity checks of a snapshot.
pub fn check_counter_invariants(score_left: u32, score_right: u32, rally: u32) -> (r: Result<
    (),
    InvariantViolation,
>)
    ensures
        r == counters_verdict(score_left, score_right, rally),
{
    if score_left > MAX_VALID_SCORE || score_right > MAX_VALID_SCORE {
        return Err(InvariantViolation::ScoreOverflow);
    }
    if rally > MAX_VALID_RALLY {
        return Err(InvariantViolation::RallyOverflow);
    }
    Ok(())
}

/// Hostile input generator for boundary testing (fuzzing).
#[derive(Debug)]
pub struct FuzzGenerator;

#[verifier::external_type_specification]
#[verifier::external_body]
pub struct ExSystemTimeError(SystemTimeError);

/// The time elapsed since the Unix epoch, by `SystemTime::elapsed` on
/// `UNIX_EPOCH`: an error where the clock reads earlier than the epoch.
/// Nothing is claimed of the value, which depends on the clock. It needs a
/// platform with a system clock; the standard library's documentation does not
/// say what happens on a platform without one.
#[verifier::external_body]
fn time_since_epoch() -> (r: Result<Duration, SystemTimeError>) {
    std::time::UNIX_EPOCH.elapsed()
}

/// The whole seconds of a duration, by `Duration::as_secs`. Nothing is
/// claimed of the value: a `Duration` is opaque here.
#[verifier::external_body]
fn whole_seconds(d: &Duration) -> (secs: u64) {
    d.as_secs()
}

/// The text of a timestamp: the whole seconds since the Unix epoch in decimal, or
/// "0" where the clock gave no such time (it read earlier than the epoch).
pub open spec fn timestamp_of(elapsed_secs: Option<u64>) -> Seq<char> {
    match elapsed_secs {
        Some(secs) => decimal(secs as nat),
        None => decimal(0),
    }
}

/// Formats the whole seconds since the Unix epoch, `None` where the clock read
/// earlier than the epoch.
pub fn timestamp_text(elapsed_secs: Option<u64>) -> (s: String)
    ensures
        s@ == timestamp_of(elapsed_secs),
{
    match elapsed_secs {
        Some(secs) => decimal_string(secs),
        None => decimal_string(0),
    }
}

/// The whole seconds since the Unix epoch by the system clock, `None` where the
/// clock reads earlier than the epoch.
fn seconds_since_epoch() -> (r: Option<u64>) {
    match time_since_epoch() {
        Ok(d) => Some(whole_seconds(&d)),
        Err(_) => None,
    }
}

/// A timestamp without a date library: the whole seconds since the Unix epoch in
/// decimal, or "0" where the clock reads earlier than the epoch.
///
/// It reads the system clock, so it needs a platform that has one: the standard
/// library provides none on `wasm32-unknown-unknown`, and there this is not to be called.
pub fn chrono_lite_timestamp() -> (s: String)
    ensures
        exists|elapsed_secs: Option<u64>| s@ == timestamp_of(elapsed_secs),
{
    let elapsed_secs = seconds_since_epoch();
    timestamp_text(elapsed_secs)
}

} // verus!
