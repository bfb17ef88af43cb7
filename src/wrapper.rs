//! The wrapper's running state: the adaptive target height, the heights
//! sampled during the current episode, and the clamp on the multiplier.
use vstd::prelude::*;
use crate::adaptation::{adapt_target, adapted_target, average_height, lemma_target_stays_in_bounds};

verus! {

/// Multiplier floor used when none is given, in thousandths.
pub const DEFAULT_MIN_RATIO: i64 = 100;

/// Multiplier ceiling used when none is given, in thousandths.
pub const DEFAULT_MAX_RATIO: i64 = 4000;

/// Lowest target height used when none is given.
pub const DEFAULT_MIN_HEIGHT: u32 = 150;

/// Highest target height used when none is given.
pub const DEFAULT_MAX_HEIGHT: u32 = 800;

/// The mathematical content of an `AerialWeightedWrapper`.
pub struct WrapperState {
    pub min_ratio: int,
    pub max_ratio: int,
    pub target_height: int,
    pub min_height: int,
    pub max_height: int,
    pub total_height: int,
    pub num_ticks_touched: int,
    pub last_seen_tick: int,
}

/// Scales a reward by how high the ball is against a target height that
/// adapts from one episode to the next.
///
/// The wrapper records the ball's height on each distinct tick at which the
/// player touched it, folds the episode's average into the target at the next
/// reset, and clamps the per-tick multiplier to `[min_ratio, max_ratio]`.
pub struct AerialWeightedWrapper {
    max_height_ratio: i64,
    min_height_ratio: i64,
    target_height: u32,
    max_height: u32,
    min_height: u32,
    total_height: u128,
    num_ticks_touched: u64,
    curr_tick: u64,
}

impl View for AerialWeightedWrapper {
    type V = WrapperState;

    closed spec fn view(&self) -> WrapperState {
        WrapperState {
            min_ratio: self.min_height_ratio as int,
            max_ratio: self.max_height_ratio as int,
            target_height: self.target_height as int,
            min_height: self.min_height as int,
            max_height: self.max_height as int,
            total_height: self.total_height as int,
            num_ticks_touched: self.num_ticks_touched as int,
            last_seen_tick: self.curr_tick as int,
        }
    }
}

/// The value of an optional height setting, or its default.
pub open spec fn height_setting(v: Option<u32>, default: u32) -> int {
    match v {
        Some(x) => x as int,
        None => default as int,
    }
}

/// The value of an optional multiplier setting, or its default.
pub open spec fn ratio_setting(v: Option<i64>, default: i64) -> int {
    match v {
        Some(x) => x as int,
        None => default as int,
    }
}

/// A consistent state: the bounds are ordered, the target lies within its
/// bounds, and the recorded total is no more than the samples can add up to.
pub open spec fn state_wf(s: WrapperState) -> bool {
    &&& s.min_height < s.max_height
    &&& s.min_ratio <= s.max_ratio
    &&& s.min_height <= s.target_height <= s.max_height
    &&& 0 <= s.total_height <= s.num_ticks_touched * (u32::MAX as int)
    &&& 0 <= s.num_ticks_touched <= u64::MAX
}

/// The state at the start of an episode whose first tick is `tick`.
pub open spec fn reset_state(s: WrapperState, tick: int) -> WrapperState {
    WrapperState {
        target_height: adapted_target(
            s.target_height,
            average_height(s.total_height, s.num_ticks_touched, s.min_height),
            s.min_height,
            s.max_height,
        ),
        total_height: 0,
        num_ticks_touched: 0,
        last_seen_tick: tick,
        ..s
    }
}

/// The state after a tick has been seen: the ball's height is recorded once
/// per distinct tick, and only when the player touched the ball.
pub open spec fn sampled_state(s: WrapperState, tick: int, touched: bool, ball_height: int) -> WrapperState {
    if s.last_seen_tick != tick && touched {
        WrapperState {
            total_height: s.total_height + ball_height,
            num_ticks_touched: s.num_ticks_touched + 1,
            last_seen_tick: tick,
            ..s
        }
    } else {
        s
    }
}

/// `raw` brought into `[lo, hi]`.
pub open spec fn clamped_ratio(raw: int, lo: int, hi: int) -> int {
    if raw < lo {
        lo
    } else if raw > hi {
        hi
    } else {
        raw
    }
}

impl AerialWeightedWrapper {
    pub closed spec fn wf(&self) -> bool {
        state_wf(self@)
    }

    /// A wrapper with the given bounds, or their defaults, and the target at
    /// the lowest height.
    pub fn new(
        min_height_val: Option<u32>,
        max_height_val: Option<u32>,
        min_val_ratio: Option<i64>,
        max_val_ratio: Option<i64>,
    ) -> (w: Self)
        requires
            height_setting(min_height_val, DEFAULT_MIN_HEIGHT) < height_setting(max_height_val, DEFAULT_MAX_HEIGHT),
            ratio_setting(min_val_ratio, DEFAULT_MIN_RATIO) <= ratio_setting(max_val_ratio, DEFAULT_MAX_RATIO),
        ensures
            w.wf(),
            w@.min_height == height_setting(min_height_val, DEFAULT_MIN_HEIGHT),
            w@.max_height == height_setting(max_height_val, DEFAULT_MAX_HEIGHT),
            w@.min_ratio == ratio_setting(min_val_ratio, DEFAULT_MIN_RATIO),
            w@.max_ratio == ratio_setting(max_val_ratio, DEFAULT_MAX_RATIO),
            w@.target_height == w@.min_height,
            w@.total_height == 0,
            w@.num_ticks_touched == 0,
            w@.last_seen_tick == 0,
    {
        let min_height_ratio = match min_val_ratio {
            Some(v) => v,
            None => DEFAULT_MIN_RATIO,
        };
        let max_height_ratio = match max_val_ratio {
            Some(v) => v,
            None => DEFAULT_MAX_RATIO,
        };
        let min_height = match min_height_val {
            Some(v) => v,
            None => DEFAULT_MIN_HEIGHT,
        };
        let max_height = match max_height_val {
            Some(v) => v,
            None => DEFAULT_MAX_HEIGHT,
        };
        AerialWeightedWrapper {
            max_height_ratio,
            min_height_ratio,
            target_height: min_height,
            max_height,
            min_height,
            total_height: 0,
            num_ticks_touched: 0,
            curr_tick: 0,
        }
    }

    /// Starts an episode at `tick_num`: folds the average height sampled in the
    /// episode that ended into the target, then clears the samples.
    pub fn reset(&mut self, tick_num: u64)
        requires
            old(self).wf(),
        ensures
            final(self).wf(),
            final(self)@ == reset_state(old(self)@, tick_num as int),
    {
        let avg: u128 = if self.num_ticks_touched == 0 {
            self.min_height as u128
        } else {
            self.total_height / (self.num_ticks_touched as u128)
        };
        proof {
            lemma_target_stays_in_bounds(
                self.target_height as int,
                avg as int,
                self.min_height as int,
                self.max_height as int,
            );
        }
        self.target_height = adapt_target(self.target_height, avg, self.min_height, self.max_height);
        self.num_ticks_touched = 0;
        self.curr_tick = tick_num;
        self.total_height = 0;
    }

    /// Records the ball's height for this tick, if it is a new tick and the
    /// player touched the ball.
    fn record_tick(&mut self, tick_num: u64, ball_touched: bool, ball_height: u32)
        requires
            old(self).wf(),
            old(self)@.num_ticks_touched < u64::MAX,
        ensures
            final(self).wf(),
            final(self)@ == sampled_state(old(self)@, tick_num as int, ball_touched, ball_height as int),
    {
        if self.curr_tick != tick_num && ball_touched {
            proof {
                let n = self.num_ticks_touched as int;
                assert((n + 1) * (u32::MAX as int) == n * (u32::MAX as int) + u32::MAX)
                    by (nonlinear_arith);
                assert(n * (u32::MAX as int) <= (u64::MAX as int) * (u32::MAX as int))
                    by (nonlinear_arith)
                    requires
                        0 <= n <= u64::MAX,
                ;
            }
            self.total_height = self.total_height + ball_height as u128;
            self.num_ticks_touched = self.num_ticks_touched + 1;
            self.curr_tick = tick_num;
        }
    }

    /// The multiplier `raw_ratio` clamped to `[min_ratio, max_ratio]`.
    pub fn clamp_ratio(&self, raw_ratio: i64) -> (r: i64)
        requires
            self.wf(),
        ensures
            r == clamped_ratio(raw_ratio as int, self@.min_ratio, self@.max_ratio),
            self@.min_ratio <= r <= self@.max_ratio,
    {
        if raw_ratio < self.min_height_ratio {
            self.min_height_ratio
        } else if raw_ratio > self.max_height_ratio {
            self.max_height_ratio
        } else {
            raw_ratio
        }
    }

    /// Handles one tick: records the ball's height (once per distinct tick, and
    /// only on a touch), then returns the multiplier for the wrapped reward,
    /// `raw_ratio` clamped to `[min_ratio, max_ratio]`. Multipliers are in
    /// thousandths; `raw_ratio` is the height formula's value for this tick.
    pub fn get_reward(&mut self, tick_num: u64, ball_touched: bool, ball_height: u32, raw_ratio: i64) -> (r: i64)
        requires
            old(self).wf(),
            old(self)@.num_ticks_touched < u64::MAX,
        ensures
            final(self).wf(),
            final(self)@ == sampled_state(old(self)@, tick_num as int, ball_touched, ball_height as int),
            r == clamped_ratio(raw_ratio as int, old(self)@.min_ratio, old(self)@.max_ratio),
            old(self)@.min_ratio <= r <= old(self)@.max_ratio,
    {
        self.record_tick(tick_num, ball_touched, ball_height);
        self.clamp_ratio(raw_ratio)
    }

    /// Handles the last tick of an episode exactly as `get_reward` handles any
    /// other: the tick is recorded and the same multiplier is returned.
    pub fn get_final_reward(&mut self, tick_num: u64, ball_touched: bool, ball_height: u32, raw_ratio: i64) -> (r: i64)
        requires
            old(self).wf(),
            old(self)@.num_ticks_touched < u64::MAX,
        ensures
            final(self).wf(),
            final(self)@ == sampled_state(old(self)@, tick_num as int, ball_touched, ball_height as int),
            r == clamped_ratio(raw_ratio as int, old(self)@.min_ratio, old(self)@.max_ratio),
            old(self)@.min_ratio <= r <= old(self)@.max_ratio,
    {
        self.get_reward(tick_num, ball_touched, ball_height, raw_ratio)
    }

    pub fn target_height(&self) -> (r: u32)
        ensures
            r == self@.target_height,
    {
        self.target_height
    }

    pub fn min_height(&self) -> (r: u32)
        ensures
            r == self@.min_height,
    {
        self.min_height
    }

    pub fn max_height(&self) -> (r: u32)
        ensures
            r == self@.max_height,
    {
        self.max_height
    }

    pub fn min_height_ratio(&self) -> (r: i64)
        ensures
            r == self@.min_ratio,
    {
        self.min_height_ratio
    }

    pub fn max_height_ratio(&self) -> (r: i64)
        ensures
            r == self@.max_ratio,
    {
        self.max_height_ratio
    }

    pub fn total_height(&self) -> (r: u128)
        ensures
            r == self@.total_height,
    {
        self.total_height
    }

    pub fn num_ticks_touched(&self) -> (r: u64)
        ensures
            r == self@.num_ticks_touched,
    {
        self.num_ticks_touched
    }

    pub fn last_seen_tick(&self) -> (r: u64)
        ensures
            r == self@.last_seen_tick,
    {
        self.curr_tick
    }
}

/// With no height recorded since the last reset, the reset treats the average
/// as `min_height`; so a target that sits at the lowest height (as in a fresh
/// wrapper) stays there.
pub proof fn lemma_reset_without_samples(s: WrapperState, tick: int)
    requires
        state_wf(s),
        s.num_ticks_touched == 0,
    ensures
        reset_state(s, tick).target_height
            == adapted_target(s.target_height, s.min_height, s.min_height, s.max_height),
        s.target_height == s.min_height ==> reset_state(s, tick).target_height == s.min_height,
{
}

/// Every reset keeps the target within `[min_height, max_height]`.
pub proof fn lemma_reset_keeps_bounds(s: WrapperState, tick: int)
    requires
        state_wf(s),
    ensures
        state_wf(reset_state(s, tick)),
        s.min_height <= reset_state(s, tick).target_height <= s.max_height,
{
    lemma_target_stays_in_bounds(
        s.target_height,
        average_height(s.total_height, s.num_ticks_touched, s.min_height),
        s.min_height,
        s.max_height,
    );
}

/// Seeing the same touched tick twice records its height once: the second
/// visit changes nothing.
pub proof fn lemma_same_tick_recorded_once(s: WrapperState, tick: int, ball_height: int)
    ensures
        sampled_state(sampled_state(s, tick, true, ball_height), tick, true, ball_height)
            == sampled_state(s, tick, true, ball_height),
        sampled_state(sampled_state(s, tick, true, ball_height), tick, true, ball_height).num_ticks_touched
            <= s.num_ticks_touched + 1,
        sampled_state(sampled_state(s, tick, true, ball_height), tick, true, ball_height).total_height
            == s.total_height
            || sampled_state(sampled_state(s, tick, true, ball_height), tick, true, ball_height).total_height
            == s.total_height + ball_height,
{
}

/// Within bounds that are in order, the multiplier never leaves them, whatever
/// the raw value.
pub proof fn lemma_ratio_within_bounds(raw: int, lo: int, hi: int)
    requires
        lo <= hi,
    ensures
        lo <= clamped_ratio(raw, lo, hi) <= hi,
{
}

} // verus!
