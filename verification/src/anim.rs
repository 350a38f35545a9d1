//! A two-state tweened value: a boolean target plus the instant of the last
//! target transition. Given an externally supplied "now" it yields an eased,
//! interpolated scalar between two caller-chosen endpoints. The clock never
//! reads wall time itself; every transition instant is handed in by the
//! caller and every query measures against the caller's "now".

use vstd::prelude::*;

verus! {

/// Duration, in milliseconds, of every animation track in this crate: all
/// transitions are quick, well under a second.
pub const QUICK_MS: u64 = 200;

/// Easing curve applied to the raw progress of a transition.
#[derive(Clone, Copy, Debug, PartialEq, Eq, Structural)]
pub enum Easing {
    Linear,
    EaseInOut,
}

/// Eased progress, in thousandths: maps a raw progress `p` in `0..=1000` to
/// an eased progress in the same range, with `0` and `1000` fixed.
pub open spec fn spec_ease(e: Easing, p: int) -> int {
    match e {
        Easing::Linear => p,
        Easing::EaseInOut => if p < 500 {
            2 * p * p / 1000
        } else {
            1000 - 2 * (1000 - p) * (1000 - p) / 1000
        },
    }
}

/// A boolean-target animation: once `go` records a new target, queries made
/// within `duration` milliseconds of the transition instant see an
/// interpolated value; later queries see the value at rest.
#[derive(Clone, Copy, Debug, PartialEq, Eq, Structural)]
pub struct Animation {
    /// The value being animated toward.
    pub target: bool,
    /// Whether any target transition has been recorded yet; a fresh
    /// animation is at rest on its initial value.
    pub transitioned: bool,
    /// Timestamp (ms) of the most recent target transition.
    pub start: u64,
    /// Length (ms) of one transition.
    pub duration: u64,
    /// Easing curve of this track.
    pub easing: Easing,
}

impl Animation {
    /// Raw progress of the most recent transition at `now`, in thousandths:
    /// 0 at the transition instant, 1000 once the transition has completed.
    /// An animation that never transitioned is at rest (1000).
    pub open spec fn spec_progress(self, now: u64) -> int {
        if !self.transitioned {
            1000
        } else if now < self.start {
            0
        } else if now - self.start >= self.duration {
            1000
        } else {
            let q = (now - self.start) * 1000 / (self.duration as int);
            if q > 1000 {
                1000
            } else {
                q
            }
        }
    }

    /// True while `now` lies within `[start, start + duration)` of the most
    /// recent transition; a fresh animation is not animating.
    pub open spec fn spec_is_animating(self, now: u64) -> bool {
        self.transitioned && self.start <= now < self.start + self.duration
    }

    /// The recorded state after asking the animation to head for `target`:
    /// a no-op when the target is unchanged, otherwise a transition at `now`.
    pub open spec fn spec_go(self, target: bool, now: u64) -> Animation {
        if target == self.target {
            self
        } else {
            Animation { target, transitioned: true, start: now, ..self }
        }
    }

    /// The interpolated value at `now`: at rest it is `to` when the target
    /// is `true` and `from` when the target is `false`; during a transition
    /// it moves from the opposite endpoint by the eased progress.
    pub open spec fn spec_interpolate(self, from: i32, to: i32, now: u64) -> int {
        let p = spec_ease(self.easing, self.spec_progress(now));
        let a: int = if self.target {
            from as int
        } else {
            to as int
        };
        let b: int = if self.target {
            to as int
        } else {
            from as int
        };
        if b >= a {
            a + (b - a) * p / 1000
        } else {
            a - (a - b) * p / 1000
        }
    }

    /// A fresh animation at rest on `initial`, with the quick duration and
    /// linear easing.
    pub fn new(initial: bool) -> (a: Animation)
        ensures
            a == (Animation {
                target: initial,
                transitioned: false,
                start: 0,
                duration: QUICK_MS,
                easing: Easing::Linear,
            }),
    {
        Animation {
            target: initial,
            transitioned: false,
            start: 0,
            duration: QUICK_MS,
            easing: Easing::Linear,
        }
    }

    /// The same animation with another easing curve.
    pub fn easing(self, easing: Easing) -> (a: Animation)
        ensures
            a == (Animation { easing, ..self }),
    {
        Animation { easing, ..self }
    }

    /// Head for `target`: records the transition instant when the target
    /// changes, and does nothing at all when it does not.
    pub fn go_mut(&mut self, target: bool, now: u64)
        ensures
            *final(self) == old(self).spec_go(target, now),
    {
        if target != self.target {
            self.target = target;
            self.transitioned = true;
            self.start = now;
        }
    }

    /// Builder form of `go_mut`, for starting a track at construction.
    pub fn go(self, target: bool, now: u64) -> (a: Animation)
        ensures
            a == self.spec_go(target, now),
    {
        let mut a = self;
        a.go_mut(target, now);
        a
    }

    /// Whether a transition is still in flight at `now`.
    pub fn is_animating(&self, now: u64) -> (b: bool)
        ensures
            b == self.spec_is_animating(now),
    {
        self.transitioned && self.start <= now && now - self.start < self.duration
    }

    /// Raw progress at `now`, executable counterpart of `spec_progress`.
    fn progress_mille(&self, now: u64) -> (p: u64)
        ensures
            p == self.spec_progress(now),
            p <= 1000,
    {
        if !self.transitioned {
            1000
        } else if now < self.start {
            0
        } else {
            let elapsed = now - self.start;
            if elapsed >= self.duration {
                1000
            } else {
                let q128 = (elapsed as u128) * 1000 / (self.duration as u128);
                if q128 > 1000 {
                    1000
                } else {
                    q128 as u64
                }
            }
        }
    }

    /// The interpolated value between `from` and `to` at `now`, in the same
    /// unit as the endpoints; always lies between them.
    pub fn interpolate(&self, from: i32, to: i32, now: u64) -> (v: i32)
        ensures
            v == self.spec_interpolate(from, to, now),
            i32::MIN <= self.spec_interpolate(from, to, now) <= i32::MAX,
    {
        let p = ease_exec(self.easing, self.progress_mille(now));
        let a: i64 = if self.target {
            from as i64
        } else {
            to as i64
        };
        let b: i64 = if self.target {
            to as i64
        } else {
            from as i64
        };
        let v: i64 = if b >= a {
            proof {
                lemma_scaled_step_bounded((b - a) as int, p as int);
            }
            let step = (b - a) * (p as i64) / 1000;
            a + step
        } else {
            proof {
                lemma_scaled_step_bounded((a - b) as int, p as int);
            }
            let step = (a - b) * (p as i64) / 1000;
            a - step
        };
        v as i32
    }
}

/// For a distance `0 <= d` and a progress `0 <= p <= 1000`, the scaled step
/// `d * p / 1000` stays within `0..=d`.
proof fn lemma_scaled_step_bounded(d: int, p: int)
    requires
        0 <= d,
        0 <= p <= 1000,
    ensures
        0 <= d * p <= d * 1000,
        0 <= d * p / 1000 <= d,
{
    assert(d * p <= d * 1000) by (nonlinear_arith)
        requires
            0 <= d,
            p <= 1000,
    ;
    assert(0 <= d * p) by (nonlinear_arith)
        requires
            0 <= d,
            0 <= p,
    ;
    assert(d * p / 1000 <= d * 1000 / 1000) by (nonlinear_arith)
        requires
            d * p <= d * 1000,
    ;
    assert(d * 1000 / 1000 == d) by (nonlinear_arith);
}

/// Executable counterpart of `spec_ease`.
fn ease_exec(e: Easing, p: u64) -> (r: u64)
    requires
        p <= 1000,
    ensures
        r == spec_ease(e, p as int),
        r <= 1000,
{
    match e {
        Easing::Linear => p,
        Easing::EaseInOut => {
            if p < 500 {
                proof {
                    lemma_ease_half_bounded(p as int);
                }
                2 * p * p / 1000
            } else {
                proof {
                    lemma_ease_half_bounded((1000 - p) as int);
                }
                1000 - 2 * (1000 - p) * (1000 - p) / 1000
            }
        },
    }
}

/// For `0 <= p <= 500`, the half-curve `2 * p * p / 1000` stays in `0..=500`.
proof fn lemma_ease_half_bounded(p: int)
    requires
        0 <= p <= 500,
    ensures
        0 <= 2 * p * p / 1000 <= 500,
{
    assert(0 <= 2 * p * p <= 500000) by (nonlinear_arith)
        requires
            0 <= p <= 500,
    ;
    assert(2 * p * p / 1000 <= 500000int / 1000) by (nonlinear_arith)
        requires
            2 * p * p <= 500000,
    ;
}

} // verus!
