//! Round configuration: target positions, toggle-interval ranges, variant
//! probabilities, round duration, message fade window and the scoring table.
//! The three difficulty buttons map to configurations here; the third button
//! is accepted by the selection screen but has no round configuration, a
//! deliberate gap kept from the design.

use vstd::prelude::*;

verus! {

/// Variant rolls are drawn uniformly in [0, ROLL_MAX).
pub const ROLL_MAX: u64 = 1000;

/// Upper bound on every toggle-interval draw, in milliseconds; it keeps the
/// random-range call exact (see `rng`) and the timer arithmetic small.
pub const MAX_INTERVAL_MS: u64 = 1_000_000;

/// Everything a round controller is parameterized by.
pub struct RoundConfig {
    /// Centers of the targets, in pixels, scanned in this order on a click.
    pub positions: Vec<(i32, i32)>,
    /// Toggle-interval range for hidden normal and decoy targets, in ms.
    pub normal_interval_lo_ms: u64,
    pub normal_interval_hi_ms: u64,
    /// Toggle-interval range for hidden armored targets, in ms.
    pub armored_interval_lo_ms: u64,
    pub armored_interval_hi_ms: u64,
    /// A variant roll below this becomes a normal target.
    pub normal_upto: u64,
    /// A roll in [normal_upto, armored_upto) becomes an armored target;
    /// anything at or above armored_upto becomes a decoy.
    pub armored_upto: u64,
    /// Round length in ms; None means the round never ends on its own.
    pub duration_ms: Option<u64>,
    /// How long a status message stays readable, in ms.
    pub message_fade_ms: u64,
    /// Score deltas: hitting a normal target, breaking an armored target's
    /// helmet, and hitting a decoy (negative).
    pub normal_score: i32,
    pub armored_score: i32,
    pub decoy_score: i32,
}

impl RoundConfig {
    /// The bounds the rest of the library needs: interval ranges non-empty
    /// and small enough for the random draw, variant thresholds ordered.
    pub open spec fn wf(self) -> bool {
        &&& self.normal_interval_lo_ms < self.normal_interval_hi_ms
        &&& self.normal_interval_hi_ms <= MAX_INTERVAL_MS
        &&& self.armored_interval_lo_ms < self.armored_interval_hi_ms
        &&& self.armored_interval_hi_ms <= MAX_INTERVAL_MS
        &&& self.normal_upto <= self.armored_upto <= ROLL_MAX
    }
}

/// The four fixed target centers shared by both difficulties.
pub open spec fn standard_positions() -> Seq<(i32, i32)> {
    seq![(450, 200), (850, 200), (450, 500), (850, 500)]
}

/// The first difficulty: normal targets only (the variant thresholds leave
/// no room for armored targets or decoys), 0.8-4.0s toggle intervals, a
/// 60s round and a 0.25s message fade.
pub open spec fn is_classic_config(c: RoundConfig) -> bool {
    &&& c.positions@ == standard_positions()
    &&& c.normal_interval_lo_ms == 800
    &&& c.normal_interval_hi_ms == 4000
    &&& c.armored_interval_lo_ms == 500
    &&& c.armored_interval_hi_ms == 3000
    &&& c.normal_upto == ROLL_MAX
    &&& c.armored_upto == ROLL_MAX
    &&& c.duration_ms == Some(60_000u64)
    &&& c.message_fade_ms == 250
    &&& c.normal_score == 1
    &&& c.armored_score == 2
    &&& c.decoy_score == -5
}

/// The second difficulty: on becoming visible a target is normal with
/// probability 0.70, armored in [0.70, 0.85) and a decoy at or above 0.85;
/// hidden armored targets redraw in 0.5-3.0s, the rest in 0.8-4.0s.
pub open spec fn is_varied_config(c: RoundConfig) -> bool {
    &&& c.positions@ == standard_positions()
    &&& c.normal_interval_lo_ms == 800
    &&& c.normal_interval_hi_ms == 4000
    &&& c.armored_interval_lo_ms == 500
    &&& c.armored_interval_hi_ms == 3000
    &&& c.normal_upto == 700
    &&& c.armored_upto == 850
    &&& c.duration_ms == Some(60_000u64)
    &&& c.message_fade_ms == 250
    &&& c.normal_score == 1
    &&& c.armored_score == 2
    &&& c.decoy_score == -5
}

impl RoundConfig {
    /// Executable check of `wf`, for callers outside the proof (the shell
    /// tests it before handing a configuration to a round).
    pub fn is_wf(&self) -> (r: bool)
        ensures
            r == self.wf(),
    {
        self.normal_interval_lo_ms < self.normal_interval_hi_ms && self.normal_interval_hi_ms
            <= MAX_INTERVAL_MS && self.armored_interval_lo_ms < self.armored_interval_hi_ms
            && self.armored_interval_hi_ms <= MAX_INTERVAL_MS && self.normal_upto
            <= self.armored_upto && self.armored_upto <= ROLL_MAX
    }

    /// The configuration a difficulty button selects. The third difficulty
    /// has no round controller, so it maps to None.
    pub fn for_difficulty(difficulty: u8) -> (r: Option<RoundConfig>)
        ensures
            r.is_some() <==> (difficulty == 1 || difficulty == 2),
            difficulty == 1 ==> is_classic_config(r->Some_0) && r->Some_0.wf(),
            difficulty == 2 ==> is_varied_config(r->Some_0) && r->Some_0.wf(),
    {
        if difficulty == 1 || difficulty == 2 {
            let mut positions: Vec<(i32, i32)> = Vec::new();
            positions.push((450, 200));
            positions.push((850, 200));
            positions.push((450, 500));
            positions.push((850, 500));
            proof {
                assert(positions@ =~= standard_positions());
            }
            let (normal_upto, armored_upto): (u64, u64) = if difficulty == 1 {
                (ROLL_MAX, ROLL_MAX)
            } else {
                (700, 850)
            };
            Some(
                RoundConfig {
                    positions,
                    normal_interval_lo_ms: 800,
                    normal_interval_hi_ms: 4000,
                    armored_interval_lo_ms: 500,
                    armored_interval_hi_ms: 3000,
                    normal_upto,
                    armored_upto,
                    duration_ms: Some(60_000),
                    message_fade_ms: 250,
                    normal_score: 1,
                    armored_score: 2,
                    decoy_score: -5,
                },
            )
        } else {
            None
        }
    }
}

} // verus!
