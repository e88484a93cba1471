//! The target entity: a clickable spot that pops up on a randomized timer.
//! A visible target carries a behavioral variant: normal, armored (takes
//! three hits) or decoy (hitting it costs points).

use vstd::prelude::*;

use crate::config::{RoundConfig, ROLL_MAX};
use crate::hit::in_box;
use crate::rng::rand_in_range;

verus! {

/// Half-extents of a target's 256x256 pixel bounding box.
pub const MOLE_HALF_WIDTH: i32 = 128;
pub const MOLE_HALF_HEIGHT: i32 = 128;

/// Hits an armored target absorbs before its helmet breaks.
pub const ARMOR_HITS: u8 = 3;

/// Behavioral variant of a target, resampled each time it becomes visible.
#[derive(Clone, Copy, PartialEq, Eq, Structural, Debug)]
pub enum MoleKind {
    Normal,
    Armored { health: u8 },
    Decoy,
}

/// One target: a fixed center position, a visibility flag, the time of the
/// last visibility change and the current variant.
#[derive(Clone, Copy, PartialEq, Eq, Structural, Debug)]
pub struct Mole {
    pub x: i32,
    pub y: i32,
    pub visible: bool,
    pub last_toggle_ms: u64,
    pub kind: MoleKind,
}

/// The variant a roll in [0, ROLL_MAX) selects, per the configured
/// thresholds; an armored target starts with full health.
pub open spec fn kind_for_roll(cfg: RoundConfig, roll: u64) -> MoleKind {
    if roll < cfg.normal_upto {
        MoleKind::Normal
    } else if roll < cfg.armored_upto {
        MoleKind::Armored { health: ARMOR_HITS }
    } else {
        MoleKind::Decoy
    }
}

/// The toggle-interval range a hidden target of this variant redraws from.
pub open spec fn interval_lo(cfg: RoundConfig, kind: MoleKind) -> u64 {
    match kind {
        MoleKind::Armored { .. } => cfg.armored_interval_lo_ms,
        _ => cfg.normal_interval_lo_ms,
    }
}

pub open spec fn interval_hi(cfg: RoundConfig, kind: MoleKind) -> u64 {
    match kind {
        MoleKind::Armored { .. } => cfg.armored_interval_hi_ms,
        _ => cfg.normal_interval_hi_ms,
    }
}

impl Mole {
    /// True iff a click at (px, py) registers on this target: it must be
    /// visible and the point must fall in its bounding box. A hidden target
    /// never registers a hit.
    pub open spec fn spec_is_hit(self, px: int, py: int) -> bool {
        self.visible && in_box(
            self.x as int,
            self.y as int,
            MOLE_HALF_WIDTH as int,
            MOLE_HALF_HEIGHT as int,
            px,
            py,
        )
    }

    /// This target forced hidden at the given time: the variant and the
    /// position stay, the toggle timer is re-armed.
    pub open spec fn spec_hidden_at(self, now_ms: u64) -> Mole {
        Mole { visible: false, last_toggle_ms: now_ms, ..self }
    }

    /// Whether a hidden target whose freshly drawn interval is `interval_ms`
    /// pops up at time `now_ms`. A visible target never toggles on a timer;
    /// it changes only through a hit.
    pub open spec fn spec_toggles(self, now_ms: u64, interval_ms: u64) -> bool {
        !self.visible && now_ms > self.last_toggle_ms + interval_ms
    }

    /// The target after one update step at `now_ms`, given the drawn toggle
    /// interval and variant roll: either it pops up with a fresh variant, or
    /// nothing changes.
    pub open spec fn spec_stepped(
        self,
        now_ms: u64,
        interval_ms: u64,
        roll: u64,
        cfg: RoundConfig,
    ) -> Mole {
        if self.spec_toggles(now_ms, interval_ms) {
            Mole {
                visible: true,
                last_toggle_ms: now_ms,
                kind: kind_for_roll(cfg, roll),
                ..self
            }
        } else {
            self
        }
    }

    /// How one call of `update` at `now_ms` may change a target: there are
    /// draws within the configured ranges that explain the new state.
    pub open spec fn spec_update_rel(pre: Mole, now_ms: u64, cfg: RoundConfig, post: Mole) -> bool {
        exists|interval_ms: u64, roll: u64|
            {
                &&& interval_lo(cfg, pre.kind) <= interval_ms < interval_hi(cfg, pre.kind)
                &&& roll < ROLL_MAX
                &&& post == #[trigger] pre.spec_stepped(now_ms, interval_ms, roll, cfg)
            }
    }

    /// A fresh target: hidden, normal, timer armed at creation time.
    pub fn new(x: i32, y: i32, now_ms: u64) -> (m: Mole)
        ensures
            m == (Mole {
                x,
                y,
                visible: false,
                last_toggle_ms: now_ms,
                kind: MoleKind::Normal,
            }),
    {
        Mole { x, y, visible: false, last_toggle_ms: now_ms, kind: MoleKind::Normal }
    }

    /// One deterministic update step, with the random draws passed in.
    pub fn step(&mut self, now_ms: u64, interval_ms: u64, roll: u64, cfg: &RoundConfig)
        ensures
            *final(self) == old(self).spec_stepped(now_ms, interval_ms, roll, *cfg),
    {
        if !self.visible && now_ms > self.last_toggle_ms && now_ms - self.last_toggle_ms
            > interval_ms {
            self.visible = true;
            self.last_toggle_ms = now_ms;
            self.kind = if roll < cfg.normal_upto {
                MoleKind::Normal
            } else if roll < cfg.armored_upto {
                MoleKind::Armored { health: ARMOR_HITS }
            } else {
                MoleKind::Decoy
            };
        }
    }

    /// One update tick: draw a toggle interval (and, on a toggle, a variant
    /// roll) and step. The drawn values are random, so the contract says
    /// only that some in-range draws explain the outcome; in particular a
    /// visible target is left exactly as it was.
    pub fn update(&mut self, now_ms: u64, cfg: &RoundConfig)
        requires
            cfg.wf(),
        ensures
            Mole::spec_update_rel(*old(self), now_ms, *cfg, *final(self)),
            old(self).visible ==> *final(self) == *old(self),
            final(self).x == old(self).x,
            final(self).y == old(self).y,
    {
        let (lo, hi): (u64, u64) = match self.kind {
            MoleKind::Armored { .. } => (cfg.armored_interval_lo_ms, cfg.armored_interval_hi_ms),
            _ => (cfg.normal_interval_lo_ms, cfg.normal_interval_hi_ms),
        };
        let interval_ms = rand_in_range(lo, hi);
        let roll = rand_in_range(0, ROLL_MAX);
        self.step(now_ms, interval_ms, roll, cfg);
    }

    /// Hit test for a click at (mouse_x, mouse_y). Always false while the
    /// target is hidden, whatever the coordinates.
    pub fn is_clicked(&self, mouse_x: i32, mouse_y: i32) -> (r: bool)
        ensures
            r == self.spec_is_hit(mouse_x as int, mouse_y as int),
            !self.visible ==> !r,
    {
        if !self.visible {
            return false;
        }
        crate::hit::point_in_rect(self.x, self.y, MOLE_HALF_WIDTH, MOLE_HALF_HEIGHT, mouse_x, mouse_y)
    }

    /// Force the target hidden and re-arm its toggle timer at the call
    /// time, so it cannot pop right back up before a fresh random interval
    /// has elapsed.
    pub fn force_hide(&mut self, now_ms: u64)
        ensures
            *final(self) == old(self).spec_hidden_at(now_ms),
            !final(self).visible,
            final(self).last_toggle_ms == now_ms,
    {
        self.visible = false;
        self.last_toggle_ms = now_ms;
    }
}

} // verus!
