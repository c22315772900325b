//! Timer of the S-SMP sound processor: a stage-1 divider that counts CPU
//! cycles up to `resolution`, a stage-2 counter compared with `target`, and a
//! 4-bit stage-3 counter read by the program.

use vstd::prelude::*;

verus! {

/// Abstract contents of a [`Timer`].
pub struct TimerView {
    pub resolution: i32,
    pub is_running: bool,
    pub ticks: i32,
    pub target: u8,
    pub counter_low: u8,
    pub counter_high: u8,
}

pub struct Timer {
    resolution: i32,
    is_running: bool,
    ticks: i32,
    target: u8,
    counter_low: u8,
    counter_high: u8,
}

impl View for Timer {
    type V = TimerView;

    closed spec fn view(&self) -> TimerView {
        TimerView {
            resolution: self.resolution,
            is_running: self.is_running,
            ticks: self.ticks,
            target: self.target,
            counter_low: self.counter_low,
            counter_high: self.counter_high,
        }
    }
}

/// One stage-1 tick seen by the stage-2 counter: `low` wraps modulo 256 and,
/// when it reaches `target`, it restarts at 0 and `high` advances (modulo 256).
/// A target of 0 thus means 256 ticks.
pub open spec fn stage2_tick(low: u8, high: u8, target: u8) -> (u8, u8) {
    let next = ((low + 1) % 256) as u8;
    if next == target {
        (0u8, ((high + 1) % 256) as u8)
    } else {
        (next, high)
    }
}

/// `k` stage-1 ticks in a row.
pub open spec fn stage2_advance(low: u8, high: u8, target: u8, k: nat) -> (u8, u8)
    decreases k,
{
    if k == 0 {
        (low, high)
    } else {
        let (l, h) = stage2_tick(low, high, target);
        stage2_advance(l, h, target, (k - 1) as nat)
    }
}

/// Number of stage-1 ticks produced by a divider holding `total` cycles.
pub open spec fn ticks_produced(total: int, resolution: int) -> nat {
    if total < resolution || resolution <= 0 {
        0
    } else {
        (total / resolution) as nat
    }
}

/// Cycles left in the divider after the ticks have been taken out.
pub open spec fn ticks_left(total: int, resolution: int) -> int {
    if total < resolution || resolution <= 0 {
        total
    } else {
        total % resolution
    }
}

proof fn lemma_advance_step(low: u8, high: u8, target: u8, k: nat)
    ensures
        stage2_advance(low, high, target, k + 1) == ({
            let (l, h) = stage2_advance(low, high, target, k);
            stage2_tick(l, h, target)
        }),
    decreases k,
{
    if k == 0 {
        reveal_with_fuel(stage2_advance, 2);
    } else {
        let (l, h) = stage2_tick(low, high, target);
        lemma_advance_step(l, h, target, (k - 1) as nat);
    }
}

/// Number of stage-1 ticks between two advances of the stage-3 counter: the
/// target value, where 0 stands for 256.
pub open spec fn stage2_period(target: u8) -> nat {
    if target == 0 {
        256
    } else {
        target as nat
    }
}

proof fn lemma_advance_below_period(high: u8, target: u8, m: nat)
    requires
        m < stage2_period(target),
    ensures
        stage2_advance(0, high, target, m) == (m as u8, high),
    decreases m,
{
    if m > 0 {
        lemma_advance_below_period(high, target, (m - 1) as nat);
        lemma_advance_step(0, high, target, (m - 1) as nat);
    }
}

/// Law of the stage-2 counter: starting from 0, it counts up to one less than
/// the period without touching the stage-3 counter, and after exactly one
/// period (the target, 0 meaning 256) it is back at 0 and the stage-3
/// counter has advanced by one.
pub proof fn lemma_stage2_period(high: u8, target: u8)
    ensures
        forall|m: nat| m < stage2_period(target) ==>
            #[trigger] stage2_advance(0, high, target, m) == (m as u8, high),
        stage2_advance(0, high, target, stage2_period(target)) == (0u8, ((high + 1) % 256) as u8),
{
    assert forall|m: nat| m < stage2_period(target) implies
        #[trigger] stage2_advance(0, high, target, m) == (m as u8, high) by {
        lemma_advance_below_period(high, target, m);
    }
    let p = stage2_period(target);
    lemma_advance_below_period(high, target, (p - 1) as nat);
    lemma_advance_step(0, high, target, (p - 1) as nat);
}

/// The timer's contents after `n` CPU cycles (see `Timer::cpu_cycles_callback`):
/// a stopped timer is unchanged; a running one takes the divider's ticks
/// into the stage-2 counter and keeps the remainder.
pub open spec fn timer_after(v: TimerView, n: int) -> TimerView {
    if !v.is_running {
        v
    } else {
        let total = v.ticks + n;
        let k = ticks_produced(total, v.resolution as int);
        let (l, h) = stage2_advance(v.counter_low, v.counter_high, v.target, k);
        TimerView {
            ticks: ticks_left(total, v.resolution as int) as i32,
            counter_low: l,
            counter_high: h,
            ..v
        }
    }
}

proof fn lemma_advance_add(low: u8, high: u8, target: u8, k1: nat, k2: nat)
    ensures
        stage2_advance(low, high, target, k1 + k2) == ({
            let (l, h) = stage2_advance(low, high, target, k1);
            stage2_advance(l, h, target, k2)
        }),
    decreases k1,
{
    if k1 > 0 {
        let (l, h) = stage2_tick(low, high, target);
        lemma_advance_add(l, h, target, (k1 - 1) as nat, k2);
        assert((k1 + k2 - 1) as nat == (k1 - 1) as nat + k2);
    }
}

proof fn lemma_divider_split(x: int, b: int, r: int)
    requires
        x >= 0,
        b >= 0,
        r > 0,
    ensures
        ticks_produced(x, r) + ticks_produced(ticks_left(x, r) + b, r) == ticks_produced(x + b, r),
        ticks_left(ticks_left(x, r) + b, r) == ticks_left(x + b, r),
{
    let q = x / r;
    let m = x % r;
    let q2 = (m + b) / r;
    let m2 = (m + b) % r;
    vstd::arithmetic::div_mod::lemma_fundamental_div_mod(x, r);
    vstd::arithmetic::div_mod::lemma_fundamental_div_mod(m + b, r);
    assert(x + b == (q + q2) * r + m2) by (nonlinear_arith)
        requires x == r * q + m, m + b == r * q2 + m2;
    vstd::arithmetic::div_mod::lemma_fundamental_div_mod_converse(x + b, r, q + q2, m2);
    if x < r {
        vstd::arithmetic::div_mod::lemma_fundamental_div_mod_converse(x, r, 0, x);
    }
    if m + b < r {
        vstd::arithmetic::div_mod::lemma_fundamental_div_mod_converse(m + b, r, 0, m + b);
    }
    if x + b < r {
        vstd::arithmetic::div_mod::lemma_fundamental_div_mod_converse(x + b, r, 0, x + b);
    }
}

/// Law of the divider: feeding a running timer `a` cycles and then `b`
/// cycles leaves it exactly as feeding it `a + b` cycles at once (cycle
/// counts not negative, the carried cycles plus both within `i32`).
pub proof fn lemma_cycles_compose(v: TimerView, a: int, b: int)
    requires
        a >= 0,
        b >= 0,
        v.is_running ==> v.resolution > 0 && v.ticks >= 0 && v.ticks + a + b <= i32::MAX,
    ensures
        timer_after(timer_after(v, a), b) == timer_after(v, a + b),
{
    if v.is_running {
        let r = v.resolution as int;
        let x = v.ticks + a;
        lemma_divider_split(x, b, r);
        vstd::arithmetic::div_mod::lemma_fundamental_div_mod(x, r);
        let k1 = ticks_produced(x, r);
        let k2 = ticks_produced(ticks_left(x, r) + b, r);
        lemma_advance_add(v.counter_low, v.counter_high, v.target, k1, k2);
        assert(0 <= ticks_left(x, r) <= x);
    }
}

proof fn lemma_advance_from_zero(high: u8, target: u8, k: nat)
    ensures
        stage2_advance(0, high, target, k) == (
            (k % stage2_period(target)) as u8,
            ((high + k / stage2_period(target)) % 256) as u8,
        ),
    decreases k,
{
    let p = stage2_period(target) as int;
    if k == 0 {
        vstd::arithmetic::div_mod::lemma_fundamental_div_mod_converse(0, p, 0, 0);
    } else {
        let j = (k - 1) as nat;
        lemma_advance_from_zero(high, target, j);
        lemma_advance_step(0, high, target, j);
        vstd::arithmetic::div_mod::lemma_fundamental_div_mod(j as int, p);
        let q = j as int / p;
        let m = j as int % p;
        if m + 1 == p {
            assert(k as int == (q + 1) * p + 0) by (nonlinear_arith)
                requires j as int == p * q + m, m + 1 == p, k == j + 1;
            vstd::arithmetic::div_mod::lemma_fundamental_div_mod_converse(k as int, p, q + 1, 0);
        } else {
            vstd::arithmetic::div_mod::lemma_fundamental_div_mod_converse(k as int, p, q, m + 1);
        }
        vstd::arithmetic::div_mod::lemma_mod_pos_bound(high + q, 256);
    }
}

/// Law of the counter chain: a timer started with resolution `r` and
/// target `k` (0 meaning 256), fed `n` cycles, reads back the number of
/// whole target periods of whole divider periods, modulo 16.
pub proof fn lemma_counter_after_cycles(r: i32, k: u8, n: int)
    requires
        r > 0,
        0 <= n <= i32::MAX,
    ensures
        timer_after(
            TimerView { resolution: r, is_running: true, ticks: 0, target: k, counter_low: 0, counter_high: 0 },
            n,
        ).counter_high % 16 == ((n / r as int) / stage2_period(k) as int) % 16,
{
    let p = stage2_period(k) as int;
    let big_k: nat = ticks_produced(n, r as int);
    if n < r as int {
        vstd::arithmetic::div_mod::lemma_fundamental_div_mod_converse(n, r as int, 0, n);
    }
    assert(big_k as int == n / r as int);
    lemma_advance_from_zero(0, k, big_k);
    let c = big_k as int / p;
    assert(c >= 0) by {
        vstd::arithmetic::div_mod::lemma_div_pos_is_pos(big_k as int, p);
    }
    vstd::arithmetic::div_mod::lemma_mod_mod(c, 16, 16);
    assert(16 * 16 == 256);
}

impl Timer {
    pub fn new(resolution: i32) -> (t: Timer)
        ensures
            t@ == (TimerView {
                resolution,
                is_running: false,
                ticks: 0,
                target: 0,
                counter_low: 0,
                counter_high: 0,
            }),
    {
        Timer {
            resolution: resolution,
            is_running: false,
            ticks: 0,
            target: 0,
            counter_low: 0,
            counter_high: 0,
        }
    }

    /// Stops the timer and clears the target and both counters; the divider
    /// phase and the resolution are kept.
    pub fn reset(&mut self)
        ensures
            final(self)@ == (TimerView {
                is_running: false,
                target: 0,
                counter_low: 0,
                counter_high: 0,
                ..old(self)@
            }),
    {
        self.is_running = false;
        self.target = 0;
        self.counter_low = 0;
        self.counter_high = 0;
    }

    /// Feeds `num_cycles` CPU cycles to a running timer. Every `resolution`
    /// cycles produce one stage-1 tick for the stage-2 counter.
    pub fn cpu_cycles_callback(&mut self, num_cycles: i32)
        requires
            old(self)@.is_running ==> old(self)@.resolution > 0,
            old(self)@.is_running ==> i32::MIN <= old(self)@.ticks + num_cycles <= i32::MAX,
        ensures
            !old(self)@.is_running ==> final(self)@ == old(self)@,
            old(self)@.is_running ==> ({
                let total = old(self)@.ticks + num_cycles;
                let k = ticks_produced(total, old(self)@.resolution as int);
                let (l, h) = stage2_advance(
                    old(self)@.counter_low,
                    old(self)@.counter_high,
                    old(self)@.target,
                    k,
                );
                final(self)@ == TimerView {
                    ticks: ticks_left(total, old(self)@.resolution as int) as i32,
                    counter_low: l,
                    counter_high: h,
                    ..old(self)@
                }
            }),
            final(self)@ == timer_after(old(self)@, num_cycles as int),
    {
        if !self.is_running {
            return;
        }
        let ghost total: int = self.ticks + num_cycles;
        let ghost low0: u8 = self.counter_low;
        let ghost high0: u8 = self.counter_high;
        let ghost res: int = self.resolution as int;
        let ghost target0: u8 = self.target;
        self.ticks += num_cycles;
        let ghost mut done: nat = 0;
        let ghost mut taken: int = 0;
        while self.ticks >= self.resolution
            invariant
                self.resolution as int == res,
                self.target == target0,
                self.is_running,
                res > 0,
                self.ticks as int + taken == total,
                taken == done * res,
                self.ticks >= 0 || done == 0,
                (self.counter_low, self.counter_high) == stage2_advance(low0, high0, self.target, done),
            decreases self.ticks,
        {
            proof {
                lemma_advance_step(low0, high0, self.target, done);
            }
            self.ticks -= self.resolution;
            self.counter_low = if self.counter_low == 255 { 0 } else { self.counter_low + 1 };
            if self.counter_low == self.target {
                self.counter_high = if self.counter_high == 255 { 0 } else { self.counter_high + 1 };
                self.counter_low = 0;
            }
            proof {
                assert((done + 1) * res == done * res + res) by (nonlinear_arith);
                done = done + 1;
                taken = taken + res;
            }
        }
        proof {
            if total >= res {
                if done == 0 {
                    assert(false);
                }
                vstd::arithmetic::div_mod::lemma_fundamental_div_mod_converse(
                    total, res, done as int, self.ticks as int);
                assert(ticks_produced(total, res) == done);
                assert(ticks_left(total, res) == self.ticks);
            } else {
                if done > 0 {
                    assert(done * res >= res) by (nonlinear_arith)
                        requires done > 0, res > 0;
                }
                assert(done == 0);
            }
        }
    }

    /// Writing 1 restarts the timer (divider and both counters cleared) even
    /// if it was already running; writing 0 only stops it.
    pub fn set_start_stop_bit(&mut self, value: bool)
        ensures
            value ==> final(self)@ == (TimerView {
                is_running: true,
                ticks: 0,
                counter_low: 0,
                counter_high: 0,
                ..old(self)@
            }),
            !value ==> final(self)@ == (TimerView { is_running: false, ..old(self)@ }),
    {
        if value {
            self.ticks = 0;
            self.counter_low = 0;
            self.counter_high = 0;
        }
        self.is_running = value;
    }

    pub fn set_target(&mut self, value: u8)
        ensures
            final(self)@ == (TimerView { target: value, ..old(self)@ }),
    {
        self.target = value;
    }

    /// Returns the low 4 bits of the stage-3 counter and clears it.
    pub fn read_counter(&mut self) -> (r: u8)
        ensures
            r == old(self)@.counter_high % 16,
            final(self)@ == (TimerView { counter_high: 0, ..old(self)@ }),
    {
        let ret = self.counter_high & 0x0f;
        proof {
            let h = old(self).counter_high;
            assert(h & 0x0f == h % 16) by (bit_vector);
        }
        self.counter_high = 0;
        ret
    }
}

} // verus!
