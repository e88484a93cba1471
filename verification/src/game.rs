//! The round controller: a fixed set of targets, the running score, a
//! transient status message and a sticky duration-based end condition.
//!
//! One tick at time `now` advances every target (or forces them hidden once
//! the round is over), scores at most the first target a click lands on,
//! then checks the round duration. The random draws inside a tick are the
//! only nondeterminism; everything after them is pinned down exactly.

use vstd::prelude::*;

use crate::config::RoundConfig;
use crate::hit::in_box;
use crate::mole::{Mole, MoleKind, ARMOR_HITS, MOLE_HALF_HEIGHT, MOLE_HALF_WIDTH};

verus! {

/// The short-lived status line set on each click (and at round start). The
/// rendering shell turns it into text together with the current score and
/// difficulty; the score shown is the one the click left behind, which is
/// still current when the message is, since only a click changes either.
#[derive(Clone, Copy, PartialEq, Eq, Structural, Debug)]
pub enum StatusMessage {
    /// Round start: names the difficulty and invites the first click.
    Intro,
    /// A normal target was hit and hidden.
    Hit,
    /// An armored target absorbed the hit and stays up.
    HelmetProtected,
    /// An armored target's last health point fell: bonus awarded, hidden.
    HelmetBroken,
    /// A decoy was hit: penalty applied, hidden.
    DontHitCats,
    /// The click landed on no visible target.
    Missed,
}

/// One running round.
pub struct Game {
    pub moles: Vec<Mole>,
    pub score: i32,
    pub message: StatusMessage,
    pub message_timer_ms: u64,
    pub difficulty: u8,
    pub start_time_ms: u64,
    pub game_over: bool,
    pub config: RoundConfig,
}

/// `a + d` clamped to the i32 range. Scoring uses this so that no sequence
/// of clicks can overflow, without putting a floor (or ceiling) anywhere
/// inside the meaningful range.
pub open spec fn sat_add_spec(a: int, d: int) -> int {
    if a + d > i32::MAX as int {
        i32::MAX as int
    } else if a + d < i32::MIN as int {
        i32::MIN as int
    } else {
        a + d
    }
}

/// Saturating signed addition, exact against `sat_add_spec`.
pub fn sat_add_i32(a: i32, d: i32) -> (r: i32)
    ensures
        r as int == sat_add_spec(a as int, d as int),
{
    if d >= 0 {
        if a <= i32::MAX - d {
            a + d
        } else {
            i32::MAX
        }
    } else {
        if a >= i32::MIN - d {
            a + d
        } else {
            i32::MIN
        }
    }
}

/// What a scored hit leaves of the target: normal targets and decoys are
/// hidden on the spot; an armored target loses one health point and stays
/// visible until the last point falls, which hides it.
pub open spec fn spec_hit_result(m: Mole, now_ms: u64) -> Mole {
    match m.kind {
        MoleKind::Normal => m.spec_hidden_at(now_ms),
        MoleKind::Decoy => m.spec_hidden_at(now_ms),
        MoleKind::Armored { health } => if health <= 1 {
            (Mole { kind: (MoleKind::Armored { health: 0 }), ..m.spec_hidden_at(now_ms) })
        } else {
            (Mole { kind: (MoleKind::Armored { health: (health - 1) as u8 }), ..m })
        },
    }
}

/// The score delta a scored hit applies: the normal reward, the armored
/// bonus only on the breaking hit, the (negative) decoy penalty.
pub open spec fn spec_hit_delta(m: Mole, cfg: RoundConfig) -> i32 {
    match m.kind {
        MoleKind::Normal => cfg.normal_score,
        MoleKind::Decoy => cfg.decoy_score,
        MoleKind::Armored { health } => if health <= 1 {
            cfg.armored_score
        } else {
            0
        },
    }
}

/// The status message a scored hit sets.
pub open spec fn spec_hit_message(m: Mole) -> StatusMessage {
    match m.kind {
        MoleKind::Normal => StatusMessage::Hit,
        MoleKind::Decoy => StatusMessage::DontHitCats,
        MoleKind::Armored { health } => if health <= 1 {
            StatusMessage::HelmetBroken
        } else {
            StatusMessage::HelmetProtected
        },
    }
}

/// The index of the first target at or after `i` that the click registers
/// on, or `moles.len()` if there is none: clicks are scored in array order
/// and at most one target per click.
pub open spec fn first_hit_from(moles: Seq<Mole>, px: int, py: int, i: int) -> int
    decreases moles.len() - i,
{
    if i < 0 || i >= moles.len() {
        moles.len() as int
    } else if moles[i].spec_is_hit(px, py) {
        i
    } else {
        first_hit_from(moles, px, py, i + 1)
    }
}

/// The first hit found is a hit, lies no earlier than `i`, and nothing in
/// between registers.
pub proof fn lemma_first_hit_from_props(moles: Seq<Mole>, px: int, py: int, i: int)
    requires
        0 <= i <= moles.len(),
    ensures
        i <= first_hit_from(moles, px, py, i) <= moles.len(),
        first_hit_from(moles, px, py, i) < moles.len() ==> moles[first_hit_from(
            moles,
            px,
            py,
            i,
        )].spec_is_hit(px, py),
        forall|j: int|
            i <= j < first_hit_from(moles, px, py, i) ==> !(#[trigger] moles[j]).spec_is_hit(
                px,
                py,
            ),
    decreases moles.len() - i,
{
    if i < moles.len() {
        if !moles[i].spec_is_hit(px, py) {
            lemma_first_hit_from_props(moles, px, py, i + 1);
        }
    }
}

/// Exactly how a click at (px, py) turns the pre-click state into the
/// post-click state: either the first registering target is scored under
/// the per-variant policy, or nothing registers and the click is a miss;
/// either way the message timestamp becomes the click time.
pub open spec fn click_applied(
    pre_moles: Seq<Mole>,
    pre_score: i32,
    px: int,
    py: int,
    now_ms: u64,
    cfg: RoundConfig,
    post_moles: Seq<Mole>,
    post_score: i32,
    post_message: StatusMessage,
    post_timer_ms: u64,
) -> bool {
    let k = first_hit_from(pre_moles, px, py, 0);
    &&& post_timer_ms == now_ms
    &&& if k == pre_moles.len() as int {
        &&& post_moles == pre_moles
        &&& post_score == pre_score
        &&& post_message == StatusMessage::Missed
    } else {
        &&& post_moles == pre_moles.update(k, spec_hit_result(pre_moles[k], now_ms))
        &&& post_score as int == sat_add_spec(
            pre_score as int,
            spec_hit_delta(pre_moles[k], cfg) as int,
        )
        &&& post_message == spec_hit_message(pre_moles[k])
    }
}

/// Whether the fixed round duration has elapsed at `now_ms`; a round
/// without a duration never ends on its own.
pub open spec fn duration_reached(cfg: RoundConfig, start_ms: u64, now_ms: u64) -> bool {
    match cfg.duration_ms {
        Some(d) => now_ms >= start_ms + d,
        None => false,
    }
}

/// Every target forced hidden at `now_ms`, positions and variants kept.
pub open spec fn moles_all_hidden_at(pre: Seq<Mole>, now_ms: u64, post: Seq<Mole>) -> bool {
    &&& post.len() == pre.len()
    &&& forall|i: int|
        0 <= i < pre.len() ==> #[trigger] post[i] == pre[i].spec_hidden_at(now_ms)
}

/// Every target advanced by one (randomized) update step at `now_ms`.
pub open spec fn moles_advanced_rel(
    pre: Seq<Mole>,
    now_ms: u64,
    cfg: RoundConfig,
    post: Seq<Mole>,
) -> bool {
    &&& post.len() == pre.len()
    &&& forall|i: int|
        0 <= i < pre.len() ==> Mole::spec_update_rel(pre[i], now_ms, cfg, #[trigger] post[i])
}

/// The first phase of a tick: targets are force-hidden once the round is
/// over, otherwise each takes a randomized update step.
pub open spec fn phase1_rel(
    pre: Seq<Mole>,
    game_over: bool,
    now_ms: u64,
    cfg: RoundConfig,
    post: Seq<Mole>,
) -> bool {
    if game_over {
        moles_all_hidden_at(pre, now_ms, post)
    } else {
        moles_advanced_rel(pre, now_ms, cfg, post)
    }
}

impl Game {
    /// The configuration bounds every operation relies on.
    pub open spec fn wf(self) -> bool {
        self.config.wf()
    }

    /// A fresh round at time `now_ms`: one hidden normal target per
    /// configured position, score zero, the intro message (with its
    /// timestamp at zero, as the round makes no claim to show it), and the
    /// round running.
    pub fn new(config: RoundConfig, difficulty: u8, now_ms: u64) -> (g: Game)
        requires
            config.wf(),
        ensures
            g.wf(),
            g.config == config,
            g.score == 0,
            g.message == StatusMessage::Intro,
            g.message_timer_ms == 0,
            g.difficulty == difficulty,
            g.start_time_ms == now_ms,
            !g.game_over,
            g.moles@.len() == config.positions@.len(),
            forall|i: int|
                0 <= i < config.positions@.len() ==> g.moles@[i] == (Mole {
                    x: config.positions@[i].0,
                    y: config.positions@[i].1,
                    visible: false,
                    last_toggle_ms: now_ms,
                    kind: MoleKind::Normal,
                }),
    {
        let mut moles: Vec<Mole> = Vec::new();
        let n = config.positions.len();
        let mut i: usize = 0;
        while i < n
            invariant
                i <= n,
                n == config.positions@.len(),
                moles@.len() == i,
                forall|j: int|
                    0 <= j < i ==> moles@[j] == (Mole {
                        x: config.positions@[j].0,
                        y: config.positions@[j].1,
                        visible: false,
                        last_toggle_ms: now_ms,
                        kind: MoleKind::Normal,
                    }),
            decreases n - i,
        {
            let p = config.positions[i];
            moles.push(Mole::new(p.0, p.1, now_ms));
            i += 1;
        }
        Game {
            moles,
            score: 0,
            message: StatusMessage::Intro,
            message_timer_ms: 0,
            difficulty,
            start_time_ms: now_ms,
            game_over: false,
            config,
        }
    }

    /// Tick phase one: force every target hidden once the round is over,
    /// otherwise give each its randomized update step. Nothing else moves.
    #[verifier::loop_isolation(false)]
    pub fn advance_moles(&mut self, now_ms: u64)
        requires
            old(self).wf(),
        ensures
            final(self).wf(),
            final(self).score == old(self).score,
            final(self).message == old(self).message,
            final(self).message_timer_ms == old(self).message_timer_ms,
            final(self).difficulty == old(self).difficulty,
            final(self).start_time_ms == old(self).start_time_ms,
            final(self).game_over == old(self).game_over,
            final(self).config == old(self).config,
            phase1_rel(
                old(self).moles@,
                old(self).game_over,
                now_ms,
                old(self).config,
                final(self).moles@,
            ),
    {
        let ghost pre = *self;
        let n = self.moles.len();
        let mut i: usize = 0;
        while i < n
            invariant
                i <= n,
                n == pre.moles@.len(),
                self.moles@.len() == n,
                self.score == pre.score,
                self.message == pre.message,
                self.message_timer_ms == pre.message_timer_ms,
                self.difficulty == pre.difficulty,
                self.start_time_ms == pre.start_time_ms,
                self.game_over == pre.game_over,
                self.config == pre.config,
                forall|j: int| i <= j < n ==> self.moles@[j] == pre.moles@[j],
                pre.game_over ==> forall|j: int|
                    0 <= j < i ==> #[trigger] self.moles@[j] == pre.moles@[j].spec_hidden_at(
                        now_ms,
                    ),
                !pre.game_over ==> forall|j: int|
                    0 <= j < i ==> Mole::spec_update_rel(
                        pre.moles@[j],
                        now_ms,
                        pre.config,
                        #[trigger] self.moles@[j],
                    ),
            decreases n - i,
        {
            let mut m = self.moles[i];
            if self.game_over {
                m.force_hide(now_ms);
            } else {
                m.update(now_ms, &self.config);
            }
            self.moles[i] = m;
            i += 1;
        }
    }

    /// Tick phase two: scan the targets in array order and score the first
    /// one the click registers on; if none does, record a miss. Exactly
    /// `click_applied` relates the state before to the state after.
    #[verifier::loop_isolation(false)]
    pub fn process_click(&mut self, now_ms: u64, mouse_x: i32, mouse_y: i32)
        ensures
            final(self).wf() == old(self).wf(),
            final(self).difficulty == old(self).difficulty,
            final(self).start_time_ms == old(self).start_time_ms,
            final(self).game_over == old(self).game_over,
            final(self).config == old(self).config,
            click_applied(
                old(self).moles@,
                old(self).score,
                mouse_x as int,
                mouse_y as int,
                now_ms,
                old(self).config,
                final(self).moles@,
                final(self).score,
                final(self).message,
                final(self).message_timer_ms,
            ),
    {
        let ghost pre = *self;
        let ghost px = mouse_x as int;
        let ghost py = mouse_y as int;
        let n = self.moles.len();
        let mut i: usize = 0;
        while i < n
            invariant
                i <= n,
                n == pre.moles@.len(),
                *self == pre,
                first_hit_from(pre.moles@, px, py, 0) == first_hit_from(pre.moles@, px, py, i as int),
            decreases n - i,
        {
            if self.moles[i].is_clicked(mouse_x, mouse_y) {
                proof {
                    assert(first_hit_from(pre.moles@, px, py, 0) == i as int);
                }
                let mut m = self.moles[i];
                match m.kind {
                    MoleKind::Normal => {
                        self.score = sat_add_i32(self.score, self.config.normal_score);
                        m.force_hide(now_ms);
                        self.moles[i] = m;
                        self.message = StatusMessage::Hit;
                    },
                    MoleKind::Armored { health } => {
                        if health <= 1 {
                            self.score = sat_add_i32(self.score, self.config.armored_score);
                            m.force_hide(now_ms);
                            m.kind = MoleKind::Armored { health: 0 };
                            self.moles[i] = m;
                            self.message = StatusMessage::HelmetBroken;
                        } else {
                            m.kind = MoleKind::Armored { health: health - 1 };
                            self.moles[i] = m;
                            self.message = StatusMessage::HelmetProtected;
                        }
                    },
                    MoleKind::Decoy => {
                        self.score = sat_add_i32(self.score, self.config.decoy_score);
                        m.force_hide(now_ms);
                        self.moles[i] = m;
                        self.message = StatusMessage::DontHitCats;
                    },
                }
                self.message_timer_ms = now_ms;
                proof {
                    assert(self.moles@[i as int] == spec_hit_result(pre.moles@[i as int], now_ms));
                    assert(self.moles@ =~= pre.moles@.update(
                        i as int,
                        spec_hit_result(pre.moles@[i as int], now_ms),
                    ));
                }
                return ;
            }
            i += 1;
        }
        self.message = StatusMessage::Missed;
        self.message_timer_ms = now_ms;
    }

    /// Tick phase three: once the configured duration has elapsed since the
    /// round started, the round is over, and stays over: nothing ever
    /// clears the flag short of constructing a new round.
    pub fn check_round_over(&mut self, now_ms: u64)
        ensures
            final(self).game_over == (old(self).game_over || duration_reached(
                old(self).config,
                old(self).start_time_ms,
                now_ms,
            )),
            final(self).moles == old(self).moles,
            final(self).score == old(self).score,
            final(self).message == old(self).message,
            final(self).message_timer_ms == old(self).message_timer_ms,
            final(self).difficulty == old(self).difficulty,
            final(self).start_time_ms == old(self).start_time_ms,
            final(self).config == old(self).config,
    {
        match self.config.duration_ms {
            Some(d) => {
                if now_ms >= self.start_time_ms && now_ms - self.start_time_ms >= d {
                    self.game_over = true;
                }
            },
            None => {},
        }
    }

    /// One tick at time `now_ms`, with this tick's left-click position (if
    /// any) and whether the quit-to-menu key was pressed. Returns true iff
    /// the caller should discard the round and return to the menu, which is
    /// independent of the round being over.
    ///
    /// Once the round is over it stays over, every target is hidden again
    /// on every tick, and the score never moves; a click then can only
    /// miss.
    pub fn update(&mut self, now_ms: u64, click: Option<(i32, i32)>, quit_pressed: bool) -> (r:
        bool)
        requires
            old(self).wf(),
        ensures
            r == quit_pressed,
            final(self).wf(),
            final(self).config == old(self).config,
            final(self).difficulty == old(self).difficulty,
            final(self).start_time_ms == old(self).start_time_ms,
            final(self).moles@.len() == old(self).moles@.len(),
            final(self).game_over == (old(self).game_over || duration_reached(
                old(self).config,
                old(self).start_time_ms,
                now_ms,
            )),
            click.is_none() ==> final(self).score == old(self).score && final(self).message == old(
                self,
            ).message && final(self).message_timer_ms == old(self).message_timer_ms,
            old(self).game_over ==> final(self).score == old(self).score && (forall|i: int|
                0 <= i < final(self).moles@.len() ==> !(#[trigger] final(self).moles@[i]).visible),
            exists|mid: Seq<Mole>|
                {
                    &&& #[trigger] phase1_rel(
                        old(self).moles@,
                        old(self).game_over,
                        now_ms,
                        old(self).config,
                        mid,
                    )
                    &&& match click {
                        Some(p) => click_applied(
                            mid,
                            old(self).score,
                            p.0 as int,
                            p.1 as int,
                            now_ms,
                            old(self).config,
                            final(self).moles@,
                            final(self).score,
                            final(self).message,
                            final(self).message_timer_ms,
                        ),
                        None => {
                            &&& final(self).moles@ == mid
                            &&& final(self).score == old(self).score
                            &&& final(self).message == old(self).message
                            &&& final(self).message_timer_ms == old(self).message_timer_ms
                        },
                    }
                },
    {
        let ghost pre = *self;
        self.advance_moles(now_ms);
        let ghost mid = self.moles@;
        match click {
            Some(p) => {
                self.process_click(now_ms, p.0, p.1);
                proof {
                    lemma_first_hit_from_props(mid, p.0 as int, p.1 as int, 0);
                    if pre.game_over {
                        assert forall|j: int| 0 <= j < mid.len() implies !(#[trigger] mid[j]).spec_is_hit(
                            p.0 as int,
                            p.1 as int,
                        ) by {
                            assert(mid[j] == pre.moles@[j].spec_hidden_at(now_ms));
                        }
                        lemma_first_hit_from_props(mid, p.0 as int, p.1 as int, 0);
                        assert(first_hit_from(mid, p.0 as int, p.1 as int, 0) == mid.len() as int);
                    }
                }
            },
            None => {},
        }
        self.check_round_over(now_ms);
        quit_pressed
    }

    /// Milliseconds of round time left at `now_ms`: the full duration while
    /// the clock has not passed the start time, zero once the round is over
    /// or the duration has elapsed, and zero for a round without a
    /// duration (there is nothing to count down).
    pub fn time_left_ms(&self, now_ms: u64) -> (r: u64)
        ensures
            r == Game::spec_time_left_ms(*self, now_ms),
    {
        match self.config.duration_ms {
            None => 0,
            Some(d) => {
                if self.game_over {
                    0
                } else if now_ms < self.start_time_ms {
                    d
                } else if now_ms - self.start_time_ms >= d {
                    0
                } else {
                    d - (now_ms - self.start_time_ms)
                }
            },
        }
    }

    pub open spec fn spec_time_left_ms(g: Game, now_ms: u64) -> u64 {
        match g.config.duration_ms {
            None => 0u64,
            Some(d) => if g.game_over {
                0u64
            } else if now_ms < g.start_time_ms {
                d
            } else if now_ms - g.start_time_ms >= d {
                0u64
            } else {
                (d - (now_ms - g.start_time_ms)) as u64
            },
        }
    }

    /// Whether the status message is still within its fade window at
    /// `now_ms` and should be drawn.
    pub fn message_visible(&self, now_ms: u64) -> (r: bool)
        ensures
            r == (now_ms < self.message_timer_ms + self.config.message_fade_ms),
    {
        now_ms < self.message_timer_ms || now_ms - self.message_timer_ms
            < self.config.message_fade_ms
    }
}

/// A hidden target never registers a click: when every target whose box
/// contains the click point is hidden, the click is scored as a miss and
/// leaves targets and score exactly as they were. In particular, clicking
/// the location of a just-hidden target again is a miss, never a second
/// hit.
pub proof fn lemma_hidden_targets_click_misses(
    moles: Seq<Mole>,
    score: i32,
    px: int,
    py: int,
    now_ms: u64,
    cfg: RoundConfig,
    post_moles: Seq<Mole>,
    post_score: i32,
    post_message: StatusMessage,
    post_timer_ms: u64,
)
    requires
        forall|j: int|
            0 <= j < moles.len() && in_box(
                (#[trigger] moles[j]).x as int,
                moles[j].y as int,
                MOLE_HALF_WIDTH as int,
                MOLE_HALF_HEIGHT as int,
                px,
                py,
            ) ==> !moles[j].visible,
        click_applied(
            moles,
            score,
            px,
            py,
            now_ms,
            cfg,
            post_moles,
            post_score,
            post_message,
            post_timer_ms,
        ),
    ensures
        post_moles == moles,
        post_score == score,
        post_message == StatusMessage::Missed,
        post_timer_ms == now_ms,
{
    lemma_first_hit_from_props(moles, px, py, 0);
}

/// Breaking a helmet takes exactly three hits: the first two leave the
/// armored target visible with reduced health and move no score; only the
/// third awards the armored bonus and hides it.
pub proof fn lemma_armored_takes_three_hits(
    m: Mole,
    cfg: RoundConfig,
    n1: u64,
    n2: u64,
    n3: u64,
)
    requires
        m.visible,
        m.kind == (MoleKind::Armored { health: ARMOR_HITS }),
    ensures
        ({
            let m1 = spec_hit_result(m, n1);
            let m2 = spec_hit_result(m1, n2);
            let m3 = spec_hit_result(m2, n3);
            &&& m1.visible && m1.kind == (MoleKind::Armored { health: 2u8 })
            &&& spec_hit_delta(m, cfg) == 0
            &&& m2.visible && m2.kind == (MoleKind::Armored { health: 1u8 })
            &&& spec_hit_delta(m1, cfg) == 0
            &&& !m3.visible
            &&& spec_hit_delta(m2, cfg) == cfg.armored_score
        }),
{
}

/// A single hit on a decoy subtracts the penalty and hides it, with no
/// floor at zero: the score goes negative whenever the penalty exceeds it.
/// (Only a score within five of i32::MIN, where the subtraction would
/// saturate, is excluded.)
pub proof fn lemma_decoy_hit(m: Mole, score: i32, cfg: RoundConfig, now_ms: u64)
    requires
        m.kind == MoleKind::Decoy,
        cfg.decoy_score == -5,
        i32::MIN + 5 <= score,
    ensures
        !spec_hit_result(m, now_ms).visible,
        spec_hit_result(m, now_ms).last_toggle_ms == now_ms,
        sat_add_spec(score as int, spec_hit_delta(m, cfg) as int) == score - 5,
{
}

/// When a click lands inside several visible targets at once, only the
/// first in scan order is scored; every other target, the later
/// overlapping one included, is left untouched.
pub proof fn lemma_overlap_scores_first_only(
    moles: Seq<Mole>,
    score: i32,
    px: int,
    py: int,
    now_ms: u64,
    cfg: RoundConfig,
    post_moles: Seq<Mole>,
    post_score: i32,
    post_message: StatusMessage,
    post_timer_ms: u64,
    a: int,
    b: int,
)
    requires
        0 <= a < b < moles.len(),
        moles[a].spec_is_hit(px, py),
        moles[b].spec_is_hit(px, py),
        forall|j: int| 0 <= j < a ==> !(#[trigger] moles[j]).spec_is_hit(px, py),
        click_applied(
            moles,
            score,
            px,
            py,
            now_ms,
            cfg,
            post_moles,
            post_score,
            post_message,
            post_timer_ms,
        ),
    ensures
        first_hit_from(moles, px, py, 0) == a,
        post_moles[a] == spec_hit_result(moles[a], now_ms),
        post_score as int == sat_add_spec(score as int, spec_hit_delta(moles[a], cfg) as int),
        forall|j: int| 0 <= j < moles.len() && j != a ==> post_moles[j] == moles[j],
        post_moles[b] == moles[b],
{
    lemma_first_hit_from_props(moles, px, py, 0);
}

} // verus!
