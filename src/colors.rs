use vstd::prelude::*;
use crate::color::Color;

verus! {

/// How far into an interpolation window of `interval` ms we are at `now`,
/// for a commit made at `last`: the elapsed time clamped to `[0, interval]`.
pub open spec fn progress(last: int, now: int, interval: int) -> int {
    if now <= last {
        0
    } else if now - last >= interval {
        interval
    } else {
        now - last
    }
}

/// Linear interpolation from `a` to `b` at the fraction `p / d` (the end
/// value when the window is empty), truncated towards `a`.
pub open spec fn lerp(a: int, b: int, p: int, d: int) -> int {
    if d == 0 {
        b
    } else if a <= b {
        a + (b - a) * p / d
    } else {
        a - (a - b) * p / d
    }
}

/// Interpolation of each component of two colors.
pub open spec fn lerp_lch(a: Color, b: Color, p: int, d: int) -> (int, int, int) {
    (
        lerp(a.l as int, b.l as int, p, d),
        lerp(a.c as int, b.c as int, p, d),
        lerp(a.h as int, b.h as int, p, d),
    )
}

/// The shared color state: the color in effect before the last commit, the
/// color committed last, and the time (ms) of that commit.
#[derive(Clone, Copy, Debug)]
pub struct Colors {
    pub previous: Color,
    pub current: Color,
    pub last_commit: u64,
}

impl Colors {
    /// The state after committing `color` at `now`.
    pub open spec fn committed(self, color: Color, now: u64) -> Colors {
        Colors { previous: self.current, current: color, last_commit: now }
    }

    /// The interpolated color at `now` for a window of `interval` ms.
    pub open spec fn sampled(self, now: u64, interval: u64) -> (int, int, int) {
        lerp_lch(
            self.previous,
            self.current,
            progress(self.last_commit as int, now as int, interval as int),
            interval as int,
        )
    }

    /// A state with both colors black, committed at time zero.
    pub fn new() -> (r: Colors)
        ensures
            r.previous.lch() == (0int, 0int, 0int),
            r.current.lch() == (0int, 0int, 0int),
            r.last_commit == 0,
    {
        Colors { previous: Color::black(), current: Color::black(), last_commit: 0 }
    }

    /// Commits `current` at `now`: the old current color becomes the previous one.
    pub fn update_current(&mut self, current: Color, now: u64)
        requires
            old(self).last_commit <= now,
        ensures
            *final(self) == old(self).committed(current, now),
    {
        self.previous = self.current;
        self.current = current;
        self.last_commit = now;
    }

    /// The color at `now`, interpolated linearly from the previous to the
    /// current color over `interval` ms after the last commit.
    pub fn sample(&self, now: u64, interval: u64) -> (r: Color)
        ensures
            r.lch() == self.sampled(now, interval),
    {
        let p: u64 = if now <= self.last_commit {
            0
        } else if now - self.last_commit >= interval {
            interval
        } else {
            now - self.last_commit
        };
        Color {
            l: lerp_u64(self.previous.l, self.current.l, p, interval),
            c: lerp_u64(self.previous.c, self.current.c, p, interval),
            h: lerp_u64(self.previous.h, self.current.h, p, interval),
        }
    }
}

proof fn lemma_lerp_between(a: int, b: int, p: int, d: int)
    requires
        0 <= a,
        0 <= b,
        0 <= p <= d,
    ensures
        a <= b ==> a <= lerp(a, b, p, d) <= b,
        b <= a ==> b <= lerp(a, b, p, d) <= a,
{
    if d > 0 {
        if a <= b {
            assert(0 <= (b - a) * p / d <= b - a) by (nonlinear_arith)
                requires a <= b, 0 <= p <= d, d > 0;
        } else {
            assert(0 <= (a - b) * p / d <= a - b) by (nonlinear_arith)
                requires b < a, 0 <= p <= d, d > 0;
        }
    }
}

proof fn lemma_lerp_monotone(a: int, b: int, p1: int, p2: int, d: int)
    requires
        0 <= p1 <= p2 <= d,
    ensures
        a <= b ==> lerp(a, b, p1, d) <= lerp(a, b, p2, d),
        b <= a ==> lerp(a, b, p2, d) <= lerp(a, b, p1, d),
{
    if d > 0 {
        if a <= b {
            assert((b - a) * p1 / d <= (b - a) * p2 / d) by (nonlinear_arith)
                requires a <= b, 0 <= p1 <= p2, d > 0;
            assert(a == b ==> (b - a) * p1 / d == 0 && (b - a) * p2 / d == 0) by (nonlinear_arith)
                requires d > 0;
        } else {
            assert((a - b) * p1 / d <= (a - b) * p2 / d) by (nonlinear_arith)
                requires b < a, 0 <= p1 <= p2, d > 0;
        }
    }
}

proof fn lemma_lerp_end(a: int, b: int, d: int)
    requires
        d >= 0,
    ensures
        lerp(a, b, d, d) == b,
{
    if d > 0 {
        assert((b - a) * d / d == b - a) by (nonlinear_arith)
            requires d > 0;
        assert((a - b) * d / d == a - b) by (nonlinear_arith)
            requires d > 0;
    }
}

/// At the instant of the last commit, sampling reproduces the previous color.
pub proof fn lemma_sample_at_commit(s: Colors, interval: u64)
    requires
        interval > 0,
    ensures
        s.sampled(s.last_commit, interval) == s.previous.lch(),
{
}

/// One full interval after the last commit (and later), sampling gives the
/// current color.
pub proof fn lemma_sample_after_interval(s: Colors, now: u64, interval: u64)
    requires
        now >= s.last_commit as int + interval as int,
    ensures
        s.sampled(now, interval) == s.current.lch(),
{
    lemma_lerp_end(s.previous.l as int, s.current.l as int, interval as int);
    lemma_lerp_end(s.previous.c as int, s.current.c as int, interval as int);
    lemma_lerp_end(s.previous.h as int, s.current.h as int, interval as int);
}

/// As time advances the progress fraction never decreases and stays within
/// the window, and each sampled component moves monotonically from the
/// previous color's towards the current color's, never passing it.
pub proof fn lemma_sample_monotone(s: Colors, now1: u64, now2: u64, interval: u64)
    requires
        now1 <= now2,
    ensures
        0 <= progress(s.last_commit as int, now1 as int, interval as int) <= progress(
            s.last_commit as int,
            now2 as int,
            interval as int,
        ) <= interval,
        s.previous.l <= s.current.l ==> s.previous.l <= s.sampled(now1, interval).0 <= s.sampled(
            now2,
            interval,
        ).0 <= s.current.l,
        s.previous.l >= s.current.l ==> s.previous.l >= s.sampled(now1, interval).0 >= s.sampled(
            now2,
            interval,
        ).0 >= s.current.l,
        s.previous.c <= s.current.c ==> s.previous.c <= s.sampled(now1, interval).1 <= s.sampled(
            now2,
            interval,
        ).1 <= s.current.c,
        s.previous.c >= s.current.c ==> s.previous.c >= s.sampled(now1, interval).1 >= s.sampled(
            now2,
            interval,
        ).1 >= s.current.c,
        s.previous.h <= s.current.h ==> s.previous.h <= s.sampled(now1, interval).2 <= s.sampled(
            now2,
            interval,
        ).2 <= s.current.h,
        s.previous.h >= s.current.h ==> s.previous.h >= s.sampled(now1, interval).2 >= s.sampled(
            now2,
            interval,
        ).2 >= s.current.h,
{
    let d = interval as int;
    let p1 = progress(s.last_commit as int, now1 as int, d);
    let p2 = progress(s.last_commit as int, now2 as int, d);
    lemma_lerp_monotone(s.previous.l as int, s.current.l as int, p1, p2, d);
    lemma_lerp_monotone(s.previous.c as int, s.current.c as int, p1, p2, d);
    lemma_lerp_monotone(s.previous.h as int, s.current.h as int, p1, p2, d);
    lemma_lerp_between(s.previous.l as int, s.current.l as int, p1, d);
    lemma_lerp_between(s.previous.c as int, s.current.c as int, p1, d);
    lemma_lerp_between(s.previous.h as int, s.current.h as int, p1, d);
    lemma_lerp_between(s.previous.l as int, s.current.l as int, p2, d);
    lemma_lerp_between(s.previous.c as int, s.current.c as int, p2, d);
    lemma_lerp_between(s.previous.h as int, s.current.h as int, p2, d);
}

/// Committing the same color twice in a row leaves the previous and the
/// current color equal.
pub proof fn lemma_commit_twice(s: Colors, color: Color, t1: u64, t2: u64)
    ensures
        s.committed(color, t1).committed(color, t2).previous == color,
        s.committed(color, t1).committed(color, t2).current == color,
{
}

/// `lerp` on machine integers.
fn lerp_u64(a: u64, b: u64, p: u64, d: u64) -> (r: u64)
    requires
        p <= d,
    ensures
        r as int == lerp(a as int, b as int, p as int, d as int),
{
    proof {
        lemma_lerp_between(a as int, b as int, p as int, d as int);
    }
    if d == 0 {
        b
    } else if a <= b {
        assert(0 <= (b - a) as int * p as int <= u128::MAX) by (nonlinear_arith)
            requires a <= b, b <= u64::MAX, p <= u64::MAX;
        a + ((((b - a) as u128) * (p as u128)) / (d as u128)) as u64
    } else {
        assert(0 <= (a - b) as int * p as int <= u128::MAX) by (nonlinear_arith)
            requires b < a, a <= u64::MAX, p <= u64::MAX;
        a - ((((a - b) as u128) * (p as u128)) / (d as u128)) as u64
    }
}

} // verus!
