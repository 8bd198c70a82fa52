//! Interrupt-driven monotonic tick counters.
//!
//! Two independent hardware timers drive two counters: TC0 at a coarse,
//! millisecond-equivalent rate, TC1 at a finer rate for sub-millisecond
//! timing. The hardware interrupt handler calls `tick()`; the main loop reads
//! `now()`. On the device both run under a critical section that keeps the
//! multi-byte read-modify-write atomic; here the counter is an owned field,
//! which gives the same exclusive access by construction, and the interrupt
//! glue around it stays outside the library.
//!
//! Each counter is unsigned 32-bit and wraps: the observed value is the
//! unwrapped tick total, scaled by the per-tick increment, reduced modulo
//! 2^32. At TC0's 4 ms per tick the counter wraps after about 49.7 days; at
//! TC1's 500 microsecond increment it wraps after about 35.8 minutes, and the
//! corrected `now()` value after that long of counting. The calibration
//! constants (prescaler, target frequency, and TC1's empirical correction
//! divisor) keep `now()` within a few percent of wall-clock time over the
//! life of a move; the structural interrupt latency they compensate is why
//! TC1's divisor is empirical rather than derived.

use vstd::prelude::*;

verus! {

use vstd::arithmetic::div_mod::lemma_add_mod_noop;
use vstd::arithmetic::div_mod::lemma_div_is_ordered;
use vstd::arithmetic::div_mod::lemma_mod_bound;
use vstd::arithmetic::mul::lemma_mul_inequality;

/// CPU frequency of the target board.
pub const CPU_FREQ_HZ: u32 = 16_000_000;

/// TC0 fires at this rate: 16 MHz / 256 / (249 + 1) = 250 Hz.
pub const TC0_TARGET_FREQ_HZ: u32 = 250;

/// Hardware prescaler TC0 is configured with.
pub const TC0_PRESCALER: u32 = 256;

/// Compare value for TC0's output-compare register (8-bit).
pub const TC0_TIMER_COUNTS: u32 = CPU_FREQ_HZ / TC0_TARGET_FREQ_HZ / TC0_PRESCALER - 1;

/// Milliseconds of wall-clock time per TC0 tick:
/// `TC0_PRESCALER * (TC0_TIMER_COUNTS + 1) / (CPU_FREQ_HZ / 1000)`.
pub const TC0_MILLIS_PER_TICK: u32 = 4;

/// TC1 fires at this rate: 16 MHz / 8 / (999 + 1) = 2 kHz.
pub const TC1_TARGET_FREQ_HZ: u32 = 2_000;

/// Hardware prescaler TC1 is configured with.
pub const TC1_PRESCALER: u32 = 8;

/// Compare value for TC1's output-compare register (16-bit).
pub const TC1_TIMER_COUNTS: u32 = CPU_FREQ_HZ / TC1_TARGET_FREQ_HZ / TC1_PRESCALER - 1;

/// Microseconds added to TC1's raw counter per tick.
pub const TC1_INCREMENT: u32 = 1_000_000 / TC1_TARGET_FREQ_HZ;

/// Empirical correction divisor applied to TC1's raw counter by `now()`,
/// calibrated against wall-clock time to absorb interrupt latency drift.
pub const TC1_CORRECTION: u32 = 2_413;

/// The counters are 32 bits wide and wrap at this modulus.
pub const COUNTER_MODULUS: u64 = 0x1_0000_0000;

/// The unwrapped TC0 counter after `t` ticks: never decreasing in `t`.
pub open spec fn tc0_count(t: nat) -> int {
    t * (TC0_MILLIS_PER_TICK as int)
}

/// What TC0's 32-bit counter holds after `t` ticks: the unwrapped count
/// reduced modulo 2^32.
pub open spec fn tc0_counter_at(t: nat) -> int {
    tc0_count(t) % (COUNTER_MODULUS as int)
}

/// The unwrapped TC1 counter after `t` ticks.
pub open spec fn tc1_count(t: nat) -> int {
    t * (TC1_INCREMENT as int)
}

/// What TC1's 32-bit counter holds after `t` ticks.
pub open spec fn tc1_counter_at(t: nat) -> int {
    tc1_count(t) % (COUNTER_MODULUS as int)
}

/// What TC1's `now()` reports after `t` ticks.
pub open spec fn tc1_now_at(t: nat) -> int {
    tc1_counter_at(t) / (TC1_CORRECTION as int)
}

/// Why a timer configuration is rejected at startup.
#[derive(Clone, Copy, PartialEq, Eq, Structural, Debug)]
pub enum TimerConfigError {
    /// The computed compare value does not fit the timer's register, or the
    /// requested frequency is unreachable (zero, or above what the prescaled
    /// clock can count).
    CountsOutOfRange,
    /// The hardware supports only a fixed set of prescaler divisors.
    UnsupportedPrescaler,
}

/// True of the prescaler divisors the timer hardware offers.
pub open spec fn supported_prescaler(prescaler: u32) -> bool {
    prescaler == 1 || prescaler == 8 || prescaler == 64 || prescaler == 256 || prescaler == 1024
}

/// The compare value a timer must count to so that it fires at `target_freq`:
/// `cpu_freq / target_freq / prescaler - 1`.
pub open spec fn spec_timer_counts(cpu_freq: u32, target_freq: u32, prescaler: u32) -> int {
    cpu_freq as int / target_freq as int / prescaler as int - 1
}

/// True when the configuration is accepted: a supported prescaler, a
/// reachable frequency, and a compare value that fits the register.
pub open spec fn timer_config_ok(
    cpu_freq: u32,
    target_freq: u32,
    prescaler: u32,
    register_max: u32,
) -> bool {
    &&& supported_prescaler(prescaler)
    &&& target_freq > 0
    &&& spec_timer_counts(cpu_freq, target_freq, prescaler) >= 0
    &&& spec_timer_counts(cpu_freq, target_freq, prescaler) <= register_max
}

/// Validate a timer configuration and compute the compare-register value.
/// A divisor that overflows the register width is a fatal initialization
/// error: the caller must abort startup rather than configure the hardware
/// with a truncated value.
pub fn timer_counts(cpu_freq: u32, target_freq: u32, prescaler: u32, register_max: u32) -> (r:
    Result<u32, TimerConfigError>)
    ensures
        r matches Ok(c) ==> timer_config_ok(cpu_freq, target_freq, prescaler, register_max)
            && c == spec_timer_counts(cpu_freq, target_freq, prescaler),
        r matches Err(e) ==> !timer_config_ok(cpu_freq, target_freq, prescaler, register_max) && (
        e is UnsupportedPrescaler <==> !supported_prescaler(prescaler)),
{
    if !(prescaler == 1 || prescaler == 8 || prescaler == 64 || prescaler == 256 || prescaler
        == 1024) {
        return Err(TimerConfigError::UnsupportedPrescaler);
    }
    if target_freq == 0 {
        return Err(TimerConfigError::CountsOutOfRange);
    }
    let quotient = cpu_freq / target_freq / prescaler;
    if quotient == 0 {
        return Err(TimerConfigError::CountsOutOfRange);
    }
    let counts = quotient - 1;
    if counts > register_max {
        return Err(TimerConfigError::CountsOutOfRange);
    }
    Ok(counts)
}

/// The coarse clock, ticked by the TC0 compare interrupt every
/// `TC0_MILLIS_PER_TICK` milliseconds.
pub struct ClockTC0 {
    counter: u32,
    ticks: Ghost<nat>,
}

impl ClockTC0 {
    #[verifier::type_invariant]
    closed spec fn inv(self) -> bool {
        self.counter == tc0_counter_at(self.ticks@)
    }

    /// How many times `tick()` has run since the clock was created.
    pub closed spec fn spec_ticks(&self) -> nat {
        self.ticks@
    }

    pub fn new() -> (c: ClockTC0)
        ensures
            c.spec_ticks() == 0,
    {
        ClockTC0 { counter: 0, ticks: Ghost(0) }
    }

    /// Validate this clock's fixed configuration against TC0's 8-bit compare
    /// register and return the value to program it with.
    pub fn start_config(&self) -> (r: Result<u32, TimerConfigError>)
        ensures
            r matches Ok(c) ==> timer_config_ok(
                CPU_FREQ_HZ,
                TC0_TARGET_FREQ_HZ,
                TC0_PRESCALER,
                u8::MAX as u32,
            ) && c == spec_timer_counts(CPU_FREQ_HZ, TC0_TARGET_FREQ_HZ, TC0_PRESCALER),
            r is Err ==> !timer_config_ok(
                CPU_FREQ_HZ,
                TC0_TARGET_FREQ_HZ,
                TC0_PRESCALER,
                u8::MAX as u32,
            ),
    {
        timer_counts(CPU_FREQ_HZ, TC0_TARGET_FREQ_HZ, TC0_PRESCALER, u8::MAX as u32)
    }

    /// One timer interrupt: add the per-tick increment to the counter,
    /// wrapping modulo 2^32. O(1), no blocking, no allocation.
    pub fn tick(&mut self)
        ensures
            final(self).spec_ticks() == old(self).spec_ticks() + 1,
    {
        proof {
            use_type_invariant(&*self);
        }
        let next = ((self.counter as u64 + TC0_MILLIS_PER_TICK as u64) % COUNTER_MODULUS) as u32;
        proof {
            let t = self.ticks@;
            let m = COUNTER_MODULUS as int;
            lemma_add_mod_noop(tc0_count(t), TC0_MILLIS_PER_TICK as int, m);
            assert(tc0_count(t) + TC0_MILLIS_PER_TICK as int == tc0_count(t + 1));
        }
        *self = ClockTC0 { counter: next, ticks: Ghost(self.ticks@ + 1) };
    }

    /// The current tick count in milliseconds, modulo 2^32. On the device the
    /// read runs under a critical section; the exclusive borrow stands for it
    /// here.
    pub fn now(&self) -> (r: u32)
        ensures
            r == tc0_counter_at(self.spec_ticks()),
    {
        proof {
            use_type_invariant(self);
        }
        self.counter
    }
}

/// The fine clock, ticked by the TC1 compare interrupt every
/// `TC1_INCREMENT` microseconds.
pub struct ClockTC1 {
    counter: u32,
    ticks: Ghost<nat>,
}

impl ClockTC1 {
    #[verifier::type_invariant]
    closed spec fn inv(self) -> bool {
        self.counter == tc1_counter_at(self.ticks@)
    }

    /// How many times `tick()` has run since the clock was created.
    pub closed spec fn spec_ticks(&self) -> nat {
        self.ticks@
    }

    pub fn new() -> (c: ClockTC1)
        ensures
            c.spec_ticks() == 0,
    {
        ClockTC1 { counter: 0, ticks: Ghost(0) }
    }

    /// Validate this clock's fixed configuration against TC1's 16-bit compare
    /// register and return the value to program it with.
    pub fn start_config(&self) -> (r: Result<u32, TimerConfigError>)
        ensures
            r matches Ok(c) ==> timer_config_ok(
                CPU_FREQ_HZ,
                TC1_TARGET_FREQ_HZ,
                TC1_PRESCALER,
                u16::MAX as u32,
            ) && c == spec_timer_counts(CPU_FREQ_HZ, TC1_TARGET_FREQ_HZ, TC1_PRESCALER),
            r is Err ==> !timer_config_ok(
                CPU_FREQ_HZ,
                TC1_TARGET_FREQ_HZ,
                TC1_PRESCALER,
                u16::MAX as u32,
            ),
    {
        timer_counts(CPU_FREQ_HZ, TC1_TARGET_FREQ_HZ, TC1_PRESCALER, u16::MAX as u32)
    }

    /// One timer interrupt: add the per-tick increment to the raw counter,
    /// wrapping modulo 2^32.
    pub fn tick(&mut self)
        ensures
            final(self).spec_ticks() == old(self).spec_ticks() + 1,
    {
        proof {
            use_type_invariant(&*self);
        }
        let next = ((self.counter as u64 + TC1_INCREMENT as u64) % COUNTER_MODULUS) as u32;
        proof {
            let t = self.ticks@;
            let m = COUNTER_MODULUS as int;
            lemma_add_mod_noop(tc1_count(t), TC1_INCREMENT as int, m);
            assert(tc1_count(t) + TC1_INCREMENT as int == tc1_count(t + 1));
        }
        *self = ClockTC1 { counter: next, ticks: Ghost(self.ticks@ + 1) };
    }

    /// The corrected time: the raw microsecond counter divided by the
    /// calibration divisor.
    pub fn now(&self) -> (r: u32)
        ensures
            r == tc1_now_at(self.spec_ticks()),
    {
        proof {
            use_type_invariant(self);
            lemma_mod_bound(tc1_count(self.ticks@), COUNTER_MODULUS as int);
        }
        self.counter / TC1_CORRECTION
    }
}

/// The clocks are monotonic non-decreasing modulo 2^32: the unwrapped counts
/// never decrease as ticks accumulate, and what a counter holds at any tick
/// total is exactly the unwrapped count reduced modulo 2^32, so an observed
/// value goes backward only where the unwrapped count crosses a multiple of
/// 2^32 (the wrap boundary).
pub proof fn lemma_clock_monotonic_mod_2_32(t1: nat, t2: nat)
    requires
        t1 <= t2,
    ensures
        tc0_count(t1) <= tc0_count(t2),
        tc1_count(t1) <= tc1_count(t2),
        tc0_counter_at(t1) == tc0_count(t1) % (COUNTER_MODULUS as int),
        tc0_counter_at(t2) == tc0_count(t2) % (COUNTER_MODULUS as int),
        tc1_counter_at(t1) == tc1_count(t1) % (COUNTER_MODULUS as int),
        tc1_counter_at(t2) == tc1_count(t2) % (COUNTER_MODULUS as int),
{
    lemma_mul_inequality(t1 as int, t2 as int, TC0_MILLIS_PER_TICK as int);
    lemma_mul_inequality(t1 as int, t2 as int, TC1_INCREMENT as int);
}

/// Between two observations with no wrap in between — the unwrapped counts
/// lie within one modulus period — the later `now()` is never smaller: the
/// observed clock never goes backward except at the wrap boundary.
pub proof fn lemma_now_never_backward_without_wrap(t1: nat, t2: nat)
    requires
        t1 <= t2,
        tc0_count(t2) < COUNTER_MODULUS,
        tc1_count(t2) < COUNTER_MODULUS,
    ensures
        tc0_counter_at(t1) <= tc0_counter_at(t2),
        tc1_counter_at(t1) <= tc1_counter_at(t2),
        tc1_now_at(t1) <= tc1_now_at(t2),
{
    lemma_clock_monotonic_mod_2_32(t1, t2);
    let m = COUNTER_MODULUS as int;
    assert(tc0_count(t1) % m == tc0_count(t1)) by {
        vstd::arithmetic::div_mod::lemma_small_mod(tc0_count(t1) as nat, COUNTER_MODULUS as nat);
    }
    assert(tc0_count(t2) % m == tc0_count(t2)) by {
        vstd::arithmetic::div_mod::lemma_small_mod(tc0_count(t2) as nat, COUNTER_MODULUS as nat);
    }
    assert(tc1_count(t1) % m == tc1_count(t1)) by {
        vstd::arithmetic::div_mod::lemma_small_mod(tc1_count(t1) as nat, COUNTER_MODULUS as nat);
    }
    assert(tc1_count(t2) % m == tc1_count(t2)) by {
        vstd::arithmetic::div_mod::lemma_small_mod(tc1_count(t2) as nat, COUNTER_MODULUS as nat);
    }
    lemma_div_is_ordered(tc1_counter_at(t1), tc1_counter_at(t2), TC1_CORRECTION as int);
}

} // verus!
