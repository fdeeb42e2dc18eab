//! Temporal smoothing of the emotional context: an exponential moving
//! average, a change gate, and a state machine with hysteresis.

use vstd::prelude::*;
use crate::emotion::{EmotionState, EmotionalContext, UNIT};

verus! {

/// A candidate state whose signal is stronger than this is entered at once.
pub const STRONG_SIGNAL: u32 = 850_000;

/// The signal strength that the neutral state is credited with.
pub const NEUTRAL_SIGNAL: u32 = 500_000;

/// Seconds that a state lasts before a signal of ordinary strength ends it.
pub const MIN_STATE_DURATION: u64 = 3;

/// The weight of a new sample in the moving average.
pub const DEFAULT_ALPHA: u32 = 300_000;

/// The change in a metric that is worth reporting.
pub const DEFAULT_CHANGE_THRESHOLD: u32 = 50_000;

/// The metric that speaks for `state` in `context`; for the disengaged state,
/// what engagement lacks to one whole, which is nothing where engagement
/// is one whole or more.
pub open spec fn signal_strength(context: EmotionalContext, state: EmotionState) -> int {
    match state {
        EmotionState::Fatigued => context.fatigue as int,
        EmotionState::Stressed => context.stress as int,
        EmotionState::Happy => context.positive_affect as int,
        EmotionState::Engaged => context.engagement as int,
        EmotionState::Disengaged => if context.engagement <= UNIT {
            UNIT - context.engagement
        } else {
            0
        },
        EmotionState::Neutral => NEUTRAL_SIGNAL as int,
    }
}

/// `later - earlier`, or zero where `later` is the smaller.
pub open spec fn elapsed(later: u64, earlier: u64) -> u64 {
    if later >= earlier {
        (later - earlier) as u64
    } else {
        0
    }
}

/// Emotion state machine for smooth transitions.
#[derive(Clone, Copy, Debug, PartialEq, Eq, Structural)]
pub struct EmotionStateMachine {
    pub current_state: EmotionState,
    /// Seconds spent in the current state at the last update.
    pub state_duration: u64,
    /// Timestamp of the last change of state.
    pub last_transition: u64,
    /// Seconds before a change of state is allowed on an ordinary signal.
    pub min_state_duration: u64,
}

impl EmotionStateMachine {
    /// Whether a sample makes the machine change its state: the sample is
    /// classified otherwise than the current state, and either its signal is
    /// strong or the current state has lasted long enough.
    pub open spec fn transitions_on(&self, context: EmotionalContext) -> bool {
        let candidate = context.dominant_state();
        candidate != self.current_state && (signal_strength(context, candidate) > STRONG_SIGNAL
            || elapsed(context.timestamp, self.last_transition) >= self.min_state_duration)
    }

    /// The machine after a sample.
    pub open spec fn step(&self, context: EmotionalContext) -> EmotionStateMachine {
        if self.transitions_on(context) {
            EmotionStateMachine {
                current_state: context.dominant_state(),
                state_duration: 0,
                last_transition: context.timestamp,
                min_state_duration: self.min_state_duration,
            }
        } else {
            EmotionStateMachine {
                current_state: self.current_state,
                state_duration: elapsed(context.timestamp, self.last_transition),
                last_transition: self.last_transition,
                min_state_duration: self.min_state_duration,
            }
        }
    }

    /// A machine in the neutral state that has never changed it.
    pub fn new() -> (r: EmotionStateMachine)
        ensures
            r == (EmotionStateMachine {
                current_state: EmotionState::Neutral,
                state_duration: 0,
                last_transition: 0,
                min_state_duration: MIN_STATE_DURATION,
            }),
    {
        EmotionStateMachine {
            current_state: EmotionState::Neutral,
            state_duration: 0,
            last_transition: 0,
            min_state_duration: MIN_STATE_DURATION,
        }
    }

    /// Feeds a sample to the machine and returns the state it is in
    /// afterwards.
    pub fn update(&mut self, context: &EmotionalContext) -> (r: EmotionState)
        ensures
            *final(self) == old(self).step(*context),
            r == final(self).current_state,
    {
        let now: u64 = context.timestamp;
        self.state_duration = now.saturating_sub(self.last_transition);
        let new_state = self.determine_state(context);
        let should_transition = if new_state != self.current_state {
            let strength: u32 = self.get_signal_strength(context, new_state);
            if strength > STRONG_SIGNAL {
                true
            } else {
                self.state_duration >= self.min_state_duration
            }
        } else {
            false
        };
        if should_transition {
            self.current_state = new_state;
            self.last_transition = now;
            self.state_duration = 0;
        }
        self.current_state
    }

    /// The state that a context calls for, whatever state the machine is in.
    pub fn determine_state(&self, context: &EmotionalContext) -> (r: EmotionState)
        ensures
            r == context.dominant_state(),
    {
        context.get_dominant_state()
    }

    /// How strongly a context speaks for a state.
    pub fn get_signal_strength(&self, context: &EmotionalContext, state: EmotionState) -> (r: u32)
        ensures
            r as int == signal_strength(*context, state),
    {
        match state {
            EmotionState::Fatigued => context.fatigue,
            EmotionState::Stressed => context.stress,
            EmotionState::Happy => context.positive_affect,
            EmotionState::Engaged => context.engagement,
            EmotionState::Disengaged => UNIT.saturating_sub(context.engagement),
            EmotionState::Neutral => NEUTRAL_SIGNAL,
        }
    }
}

/// Hysteresis: a sample that is classified otherwise than the current state
/// changes the state if its signal is strong, however short the state has
/// lasted, or if the state has lasted the minimum; a sample of ordinary
/// strength that comes earlier changes nothing but the duration.
pub proof fn lemma_hysteresis(machine: EmotionStateMachine, context: EmotionalContext)
    requires
        context.dominant_state() != machine.current_state,
    ensures
        signal_strength(context, context.dominant_state()) > STRONG_SIGNAL ==> machine.step(
            context,
        ).current_state == context.dominant_state(),
        elapsed(context.timestamp, machine.last_transition) >= machine.min_state_duration
            ==> machine.step(context).current_state == context.dominant_state(),
        signal_strength(context, context.dominant_state()) <= STRONG_SIGNAL && elapsed(
            context.timestamp,
            machine.last_transition,
        ) < machine.min_state_duration ==> machine.step(context).current_state
            == machine.current_state && machine.step(context).last_transition
            == machine.last_transition,
{
}

/// The moving average of one metric: `alpha` parts of the new sample and the
/// rest of the current value, rounded to the nearest step of the scale.
pub open spec fn ema(alpha: int, sample: int, current: int) -> int {
    (alpha * sample + (UNIT - alpha) * current + UNIT / 2) / (UNIT as int)
}

/// The moving average of a context: each metric averaged, the timestamp taken
/// from the sample.
pub open spec fn ema_context(alpha: int, sample: EmotionalContext, current: EmotionalContext)
    -> EmotionalContext {
    EmotionalContext {
        fatigue: ema(alpha, sample.fatigue as int, current.fatigue as int) as u32,
        engagement: ema(alpha, sample.engagement as int, current.engagement as int) as u32,
        stress: ema(alpha, sample.stress as int, current.stress as int) as u32,
        positive_affect: ema(
            alpha,
            sample.positive_affect as int,
            current.positive_affect as int,
        ) as u32,
        timestamp: sample.timestamp,
    }
}

/// The distance between two values of a metric.
pub open spec fn distance(a: int, b: int) -> int {
    if a >= b {
        a - b
    } else {
        b - a
    }
}

/// Whether some metric of `a` is further than `threshold` from that of `b`.
pub open spec fn differs_by_more(a: EmotionalContext, b: EmotionalContext, threshold: int)
    -> bool {
    ||| distance(a.fatigue as int, b.fatigue as int) > threshold
    ||| distance(a.engagement as int, b.engagement as int) > threshold
    ||| distance(a.stress as int, b.stress as int) > threshold
    ||| distance(a.positive_affect as int, b.positive_affect as int) > threshold
}

/// The average of two values in the unit interval lies in it and between
/// them.
pub proof fn lemma_ema_bounds(alpha: int, sample: int, current: int)
    requires
        0 <= alpha <= UNIT,
        0 <= sample <= UNIT,
        0 <= current <= UNIT,
    ensures
        0 <= ema(alpha, sample, current) <= UNIT,
        sample <= current ==> sample <= ema(alpha, sample, current) <= current,
        current <= sample ==> current <= ema(alpha, sample, current) <= sample,
{
    let beta = UNIT - alpha;
    let lo = if sample <= current { sample } else { current };
    let hi = if sample <= current { current } else { sample };
    assert(alpha * sample + beta * current >= alpha * lo + beta * lo) by (nonlinear_arith)
        requires
            0 <= alpha,
            0 <= beta,
            lo <= sample,
            lo <= current,
    ;
    assert(alpha * sample + beta * current <= alpha * hi + beta * hi) by (nonlinear_arith)
        requires
            0 <= alpha,
            0 <= beta,
            sample <= hi,
            current <= hi,
    ;
    assert(alpha * lo + beta * lo == UNIT * lo) by (nonlinear_arith)
        requires
            beta == UNIT - alpha,
    ;
    assert(alpha * hi + beta * hi == UNIT * hi) by (nonlinear_arith)
        requires
            beta == UNIT - alpha,
    ;
}

/// One metric averaged, in machine integers.
pub fn blend(alpha: u32, sample: u32, current: u32) -> (r: u32)
    requires
        alpha <= UNIT,
        sample <= UNIT,
        current <= UNIT,
    ensures
        r as int == ema(alpha as int, sample as int, current as int),
        r <= UNIT,
{
    proof {
        lemma_ema_bounds(alpha as int, sample as int, current as int);
        assert(alpha * sample <= 1_000_000 * 1_000_000) by (nonlinear_arith)
            requires
                alpha <= 1_000_000,
                sample <= 1_000_000,
        ;
        assert((UNIT - alpha) * current <= 1_000_000 * 1_000_000) by (nonlinear_arith)
            requires
                alpha <= 1_000_000,
                current <= 1_000_000,
        ;
    }
    let weighted: u64 = alpha as u64 * sample as u64 + (UNIT - alpha) as u64 * current as u64;
    ((weighted + 500_000) / 1_000_000) as u32
}

/// Smoothed emotional state tracker with temporal filtering.
#[derive(Clone, Copy, Debug)]
pub struct EmotionalStateTracker {
    /// Current smoothed state.
    pub current: EmotionalContext,
    /// The raw sample behind the current state.
    pub previous_raw: Option<EmotionalContext>,
    /// Weight of a new sample, strictly between zero and one whole.
    pub alpha: u32,
    /// The change in a metric that triggers an update.
    pub change_threshold: u32,
    /// State machine for emotion transitions.
    pub state_machine: EmotionStateMachine,
}

impl EmotionalStateTracker {
    /// The current state is well formed and the weight lies strictly between
    /// zero and one whole.
    pub open spec fn wf(&self) -> bool {
        &&& self.current.wf()
        &&& 0 < self.alpha < UNIT
    }

    /// The smoothed context that a raw sample leads to.
    pub open spec fn smoothed(&self, raw: EmotionalContext) -> EmotionalContext {
        ema_context(self.alpha as int, raw, self.current)
    }

    /// Whether a raw sample moves the smoothed context far enough to count.
    pub open spec fn significant(&self, raw: EmotionalContext) -> bool {
        differs_by_more(self.smoothed(raw), self.current, self.change_threshold as int)
    }

    /// Whether the current state is well formed and the weight lies strictly
    /// between zero and one whole.
    pub fn is_valid(&self) -> (r: bool)
        ensures
            r == self.wf(),
    {
        self.current.is_valid() && 0 < self.alpha && self.alpha < UNIT
    }

    /// A tracker that starts at `now` with every metric at one half.
    pub fn new(now: u64) -> (r: EmotionalStateTracker)
        ensures
            r.wf(),
            r.current == (EmotionalContext {
                fatigue: 500_000,
                engagement: 500_000,
                stress: 500_000,
                positive_affect: 500_000,
                timestamp: now,
            }),
            r.previous_raw is None,
            r.alpha == DEFAULT_ALPHA,
            r.change_threshold == DEFAULT_CHANGE_THRESHOLD,
            r.state_machine == (EmotionStateMachine {
                current_state: EmotionState::Neutral,
                state_duration: 0,
                last_transition: 0,
                min_state_duration: MIN_STATE_DURATION,
            }),
    {
        EmotionalStateTracker {
            current: EmotionalContext {
                fatigue: 500_000,
                engagement: 500_000,
                stress: 500_000,
                positive_affect: 500_000,
                timestamp: now,
            },
            previous_raw: None,
            alpha: DEFAULT_ALPHA,
            change_threshold: DEFAULT_CHANGE_THRESHOLD,
            state_machine: EmotionStateMachine::new(),
        }
    }

    /// Applies the exponential moving average to a raw sample.
    pub fn apply_ema(&self, new_state: EmotionalContext) -> (r: EmotionalContext)
        requires
            self.wf(),
            new_state.wf(),
        ensures
            r == self.smoothed(new_state),
            r.wf(),
    {
        EmotionalContext {
            fatigue: blend(self.alpha, new_state.fatigue, self.current.fatigue),
            engagement: blend(self.alpha, new_state.engagement, self.current.engagement),
            stress: blend(self.alpha, new_state.stress, self.current.stress),
            positive_affect: blend(
                self.alpha,
                new_state.positive_affect,
                self.current.positive_affect,
            ),
            timestamp: new_state.timestamp,
        }
    }

    /// Whether `new_state` is far enough from the current state to warrant an
    /// update.
    pub fn has_significant_change(&self, new_state: &EmotionalContext) -> (r: bool)
        ensures
            r == differs_by_more(*new_state, self.current, self.change_threshold as int),
    {
        gap(new_state.fatigue, self.current.fatigue) > self.change_threshold || gap(
            new_state.engagement,
            self.current.engagement,
        ) > self.change_threshold || gap(new_state.stress, self.current.stress)
            > self.change_threshold || gap(
            new_state.positive_affect,
            self.current.positive_affect,
        ) > self.change_threshold
    }

    /// Smooths a raw sample and feeds the state machine with the result. If
    /// the smoothed context differs enough from the current one, it becomes
    /// the current one and is returned; otherwise the current one stays and
    /// nothing is returned.
    pub fn update(&mut self, raw_state: EmotionalContext) -> (r: Option<EmotionalContext>)
        requires
            old(self).wf(),
            raw_state.wf(),
        ensures
            final(self).wf(),
            final(self).alpha == old(self).alpha,
            final(self).change_threshold == old(self).change_threshold,
            final(self).state_machine == old(self).state_machine.step(
                old(self).smoothed(raw_state),
            ),
            old(self).significant(raw_state) ==> {
                &&& r == Some(old(self).smoothed(raw_state))
                &&& final(self).current == old(self).smoothed(raw_state)
                &&& final(self).previous_raw == Some(raw_state)
            },
            !old(self).significant(raw_state) ==> {
                &&& r is None
                &&& final(self).current == old(self).current
                &&& final(self).previous_raw == old(self).previous_raw
            },
    {
        let smoothed = self.apply_ema(raw_state);
        let _emotion_state = self.state_machine.update(&smoothed);
        if self.has_significant_change(&smoothed) {
            self.current = smoothed;
            self.previous_raw = Some(raw_state);
            Some(smoothed)
        } else {
            None
        }
    }

    /// The latest committed smoothed context.
    pub fn get_current(&self) -> (r: EmotionalContext)
        ensures
            r == self.current,
    {
        self.current
    }
}

/// The value of a metric after the same sample has been averaged in `n`
/// times, starting from `current`.
pub open spec fn ema_repeated(alpha: int, sample: int, current: int, n: nat) -> int
    decreases n,
{
    if n == 0 {
        current
    } else {
        ema(alpha, sample, ema_repeated(alpha, sample, current, (n - 1) as nat))
    }
}

/// A bound on the distance to the sample after `n` rounds at the default
/// weight: each round keeps seven tenths of it, and rounding adds a half.
pub open spec fn ema_distance_bound(n: nat) -> int
    decreases n,
{
    if n == 0 {
        UNIT as int
    } else {
        (7 * ema_distance_bound((n - 1) as nat) + 5) / 10
    }
}

/// One round at the default weight keeps at most seven tenths of the
/// distance to the sample, plus a half for rounding.
pub proof fn lemma_ema_step(sample: int, current: int)
    requires
        0 <= sample <= UNIT,
        0 <= current <= UNIT,
    ensures
        0 <= ema(DEFAULT_ALPHA as int, sample, current) <= UNIT,
        10 * distance(ema(DEFAULT_ALPHA as int, sample, current), sample) <= 7 * distance(
            current,
            sample,
        ) + 5,
        distance(ema(DEFAULT_ALPHA as int, sample, current), sample) <= distance(current, sample),
{
}

/// After `n` rounds at the default weight the metric is still in the unit
/// interval, within `ema_distance_bound(n)` of the sample.
pub proof fn lemma_ema_repeated_bound(sample: int, current: int, n: nat)
    requires
        0 <= sample <= UNIT,
        0 <= current <= UNIT,
    ensures
        0 <= ema_repeated(DEFAULT_ALPHA as int, sample, current, n) <= UNIT,
        distance(ema_repeated(DEFAULT_ALPHA as int, sample, current, n), sample)
            <= ema_distance_bound(n),
    decreases n,
{
    if n > 0 {
        lemma_ema_repeated_bound(sample, current, (n - 1) as nat);
        lemma_ema_step(
            sample,
            ema_repeated(DEFAULT_ALPHA as int, sample, current, (n - 1) as nat),
        );
    }
}

/// Further rounds never take the metric away from the sample.
pub proof fn lemma_ema_repeated_monotone(sample: int, current: int, m: nat, n: nat)
    requires
        0 <= sample <= UNIT,
        0 <= current <= UNIT,
        m <= n,
    ensures
        distance(ema_repeated(DEFAULT_ALPHA as int, sample, current, n), sample) <= distance(
            ema_repeated(DEFAULT_ALPHA as int, sample, current, m),
            sample,
        ),
    decreases n,
{
    if m < n {
        lemma_ema_repeated_monotone(sample, current, m, (n - 1) as nat);
        lemma_ema_repeated_bound(sample, current, (n - 1) as nat);
        lemma_ema_step(
            sample,
            ema_repeated(DEFAULT_ALPHA as int, sample, current, (n - 1) as nat),
        );
    }
}

/// Convergence of the moving average: when the same sample is averaged in
/// again and again at the default weight, then from the fifteenth round on
/// the metric lies within one hundredth of a whole of the sample, wherever
/// in the unit interval it started.
pub proof fn lemma_ema_converges(sample: int, current: int, n: nat)
    requires
        0 <= sample <= UNIT,
        0 <= current <= UNIT,
        n >= 15,
    ensures
        distance(ema_repeated(DEFAULT_ALPHA as int, sample, current, n), sample) <= UNIT / 100,
{
    lemma_ema_repeated_bound(sample, current, 15);
    assert(ema_distance_bound(15) <= 10_000) by {
        reveal_with_fuel(ema_distance_bound, 16);
    }
    lemma_ema_repeated_monotone(sample, current, 15, n);
}

/// The distance between two values of a metric.
pub fn gap(a: u32, b: u32) -> (r: u32)
    ensures
        r as int == distance(a as int, b as int),
{
    if a >= b {
        a - b
    } else {
        b - a
    }
}

} // verus!
