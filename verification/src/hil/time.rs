//! Hardware agnostic interfaces for counter-like resources.
//!
//! `Ticks` values are modular counters: a value of a `Ticks` type is an
//! integer in `[0, modulus)`, and the arithmetic on it wraps around the
//! modulus. `Time` converts real-world durations into ticks of a counter that
//! runs at a given `Frequency`.

use crate::returncode::ReturnCode;
use vstd::prelude::*;
use vstd::std_specs::convert::FromSpec;

verus! {

/// Trait to represent clock frequency in Hz.
pub trait Frequency {
    /// The frequency, in Hz, as a mathematical value.
    spec fn spec_frequency() -> u32;

    /// Return the frequency in Hz that a hardware counter increments its count.
    fn frequency() -> (r: u32)
        ensures
            r == Self::spec_frequency(),
    ;
}

/// 16 MHz `Frequency` type.
pub struct Freq16MHz;

impl Frequency for Freq16MHz {
    open spec fn spec_frequency() -> u32 {
        16000000
    }

    fn frequency() -> (r: u32) {
        16000000
    }
}

/// 32 KHz `Frequency` type.
pub struct Freq32KHz;

impl Frequency for Freq32KHz {
    open spec fn spec_frequency() -> u32 {
        32768
    }

    fn frequency() -> (r: u32) {
        32768
    }
}

/// 16 KHz `Frequency` type.
pub struct Freq16KHz;

impl Frequency for Freq16KHz {
    open spec fn spec_frequency() -> u32 {
        16000
    }

    fn frequency() -> (r: u32) {
        16000
    }
}

/// 1 KHz `Frequency` type.
pub struct Freq1KHz;

impl Frequency for Freq1KHz {
    open spec fn spec_frequency() -> u32 {
        1000
    }

    fn frequency() -> (r: u32) {
        1000
    }
}

/// Width of the hardware counter used by a time source: how many ticks can
/// occur before the counter wraps around.
pub trait Ticks: Sized + Copy + From<u32> {
    /// The number of the counter's distinct values (`max_value() + 1`).
    spec fn spec_modulus() -> nat;

    /// The value of the counter, in `[0, spec_modulus())`.
    spec fn spec_value(self) -> nat;

    /// The counter's values fit the modulus, and `from` reduces a `u32`
    /// modulo the modulus.
    proof fn lemma_ticks_range(self)
        ensures
            0 < Self::spec_modulus() <= 0x1_0000_0000,
            self.spec_value() < Self::spec_modulus(),
    ;

    proof fn lemma_from(x: u32)
        ensures
            <Self as FromSpec<u32>>::obeys_from_spec(),
            <Self as FromSpec<u32>>::from_spec(x).spec_value() == x as nat % Self::spec_modulus(),
    ;

    fn into_usize(self) -> (r: usize)
        ensures
            r == self.spec_value(),
    ;

    fn into_u32(self) -> (r: u32)
        ensures
            r == self.spec_value(),
    ;

    fn wrapping_add(self, other: Self) -> (r: Self)
        ensures
            r.spec_value() == ((self.spec_value() + other.spec_value()) as int) % (Self::spec_modulus() as int),
    ;

    fn wrapping_sub(self, other: Self) -> (r: Self)
        ensures
            r.spec_value() == (self.spec_value() - other.spec_value()) % (Self::spec_modulus() as int),
    ;

    /// Check whether `now` is after or equal to `when`, w.r.t. a `reference` time point.
    fn expired(reference: Self, now: Self, when: Self) -> (r: bool)
        ensures
            r == (elapsed(reference.spec_value(), now.spec_value(), Self::spec_modulus())
                >= elapsed(reference.spec_value(), when.spec_value(), Self::spec_modulus())),
    ;

    /// Returns the wrap-around value of the clock.
    fn max_value() -> (r: Self)
        ensures
            r.spec_value() == Self::spec_modulus() - 1,
    ;
}

/// The number of ticks from `reference` to `point` on a counter that wraps
/// around at `modulus`.
pub open spec fn elapsed(reference: nat, point: nat, modulus: nat) -> int {
    (point - reference) % (modulus as int)
}

/// Wrapping subtraction undoes wrapping addition: adding `b` ticks and then
/// subtracting them gives the counter value back.
pub proof fn lemma_wrapping_sub_undoes_add<T: Ticks>(a: T, b: T)
    ensures
        ((((a.spec_value() + b.spec_value()) as int) % (T::spec_modulus() as int)) - b.spec_value())
            % (T::spec_modulus() as int) == a.spec_value(),
{
    a.lemma_ticks_range();
    b.lemma_ticks_range();
    let m = T::spec_modulus() as int;
    let x = a.spec_value() as int;
    let y = b.spec_value() as int;
    if x + y < m {
        vstd::arithmetic::div_mod::lemma_fundamental_div_mod_converse(x + y, m, 0, x + y);
        vstd::arithmetic::div_mod::lemma_fundamental_div_mod_converse(x, m, 0, x);
    } else {
        vstd::arithmetic::div_mod::lemma_fundamental_div_mod_converse(x + y, m, 1, x + y - m);
        vstd::arithmetic::div_mod::lemma_fundamental_div_mod_converse(x - m, m, -1, x);
    }
}

/// At its reference point, a deadline has expired exactly when it is the
/// reference point itself: no time has elapsed yet.
pub proof fn lemma_expired_at_reference<T: Ticks>(reference: T, when: T)
    ensures
        (elapsed(reference.spec_value(), reference.spec_value(), T::spec_modulus()) >= elapsed(
            reference.spec_value(),
            when.spec_value(),
            T::spec_modulus(),
        )) <==> when.spec_value() == reference.spec_value(),
{
    reference.lemma_ticks_range();
    when.lemma_ticks_range();
    let m = T::spec_modulus() as int;
    let r = reference.spec_value() as int;
    let w = when.spec_value() as int;
    vstd::arithmetic::div_mod::lemma_fundamental_div_mod_converse(r - r, m, 0, 0);
    if w >= r {
        vstd::arithmetic::div_mod::lemma_fundamental_div_mod_converse(w - r, m, 0, w - r);
    } else {
        vstd::arithmetic::div_mod::lemma_fundamental_div_mod_converse(w - r, m, -1, w - r + m);
    }
}

/// A deadline `when` set at `reference` has expired once the counter shows
/// `when` itself.
pub proof fn lemma_expired_when_due<T: Ticks>(reference: T, when: T)
    ensures
        elapsed(reference.spec_value(), when.spec_value(), T::spec_modulus()) >= elapsed(
            reference.spec_value(),
            when.spec_value(),
            T::spec_modulus(),
        ),
{
}

/// A 32-bit wide counter value.
#[derive(Clone, Copy)]
pub struct Ticks32Bits(u32);

impl Ticks32Bits {
    pub const MAX_VALUE: u32 = 0xFFFFFFFF;
}

impl From<u32> for Ticks32Bits {
    fn from(x: u32) -> (r: Self) {
        Ticks32Bits(x)
    }
}

impl vstd::std_specs::convert::FromSpecImpl<u32> for Ticks32Bits {
    open spec fn obeys_from_spec() -> bool {
        true
    }

    closed spec fn from_spec(v: u32) -> Self {
        Ticks32Bits(v)
    }
}

impl Ticks for Ticks32Bits {
    open spec fn spec_modulus() -> nat {
        0x1_0000_0000
    }

    closed spec fn spec_value(self) -> nat {
        self.0 as nat
    }

    proof fn lemma_ticks_range(self) {
    }

    proof fn lemma_from(x: u32) {
    }

    fn into_usize(self) -> (r: usize) {
        self.0 as usize
    }

    fn into_u32(self) -> (r: u32) {
        self.0
    }

    fn wrapping_add(self, other: Self) -> (r: Self) {
        Ticks32Bits(self.0.wrapping_add(other.0))
    }

    fn wrapping_sub(self, other: Self) -> (r: Self) {
        Ticks32Bits(self.0.wrapping_sub(other.0))
    }

    fn expired(reference: Self, now: Self, when: Self) -> (r: bool) {
        now.wrapping_sub(reference).0 >= when.wrapping_sub(reference).0
    }

    fn max_value() -> (r: Self) {
        Self(Self::MAX_VALUE)
    }
}

/// A 24-bit wide counter value.
#[derive(Clone, Copy)]
pub struct Ticks24Bits(u32);

impl Ticks24Bits {
    pub const MAX_VALUE: u32 = 0x00FFFFFF;

    #[verifier::type_invariant]
    spec fn fits(self) -> bool {
        self.0 <= 0x00FFFFFF
    }
}

/// The low 24 bits of a word are its remainder modulo 2^24.
proof fn lemma_low_24_bits(x: u32)
    ensures
        x & 0x00FFFFFFu32 == x % 0x0100_0000,
        x & 0x00FFFFFFu32 <= 0x00FFFFFF,
{
    assert(x & 0x00FFFFFFu32 == x % 0x0100_0000) by (bit_vector);
    assert(x & 0x00FFFFFFu32 <= 0x00FFFFFF) by (bit_vector);
}

impl From<u32> for Ticks24Bits {
    fn from(x: u32) -> (r: Self) {
        proof {
            lemma_low_24_bits(x);
        }
        Ticks24Bits(x & Self::MAX_VALUE)
    }
}

impl vstd::std_specs::convert::FromSpecImpl<u32> for Ticks24Bits {
    open spec fn obeys_from_spec() -> bool {
        true
    }

    closed spec fn from_spec(v: u32) -> Self {
        Ticks24Bits(v & 0x00FFFFFFu32)
    }
}

impl Ticks for Ticks24Bits {
    open spec fn spec_modulus() -> nat {
        0x0100_0000
    }

    closed spec fn spec_value(self) -> nat {
        self.0 as nat % 0x0100_0000
    }

    proof fn lemma_ticks_range(self) {
    }

    proof fn lemma_from(x: u32) {
        lemma_low_24_bits(x);
    }

    fn into_usize(self) -> (r: usize) {
        proof {
            use_type_invariant(self);
        }
        self.0 as usize
    }

    fn into_u32(self) -> (r: u32) {
        proof {
            use_type_invariant(self);
        }
        self.0
    }

    fn wrapping_add(self, other: Self) -> (r: Self) {
        proof {
            use_type_invariant(self);
            use_type_invariant(other);
        }
        let sum: u32 = self.0.wrapping_add(other.0);
        proof {
            lemma_low_24_bits(sum);
        }
        Ticks24Bits(sum & Self::MAX_VALUE)
    }

    fn wrapping_sub(self, other: Self) -> (r: Self) {
        proof {
            use_type_invariant(self);
            use_type_invariant(other);
        }
        let difference: u32 = self.0.wrapping_sub(other.0);
        proof {
            lemma_low_24_bits(difference);
        }
        Ticks24Bits(difference & Self::MAX_VALUE)
    }

    fn expired(reference: Self, now: Self, when: Self) -> (r: bool) {
        let elapsed_now: Self = now.wrapping_sub(reference);
        let elapsed_when: Self = when.wrapping_sub(reference);
        proof {
            use_type_invariant(elapsed_now);
            use_type_invariant(elapsed_when);
        }
        elapsed_now.0 >= elapsed_when.0
    }

    fn max_value() -> (r: Self) {
        Self(Self::MAX_VALUE)
    }
}

/// Information about the underlying time source: the width of its counter and
/// the frequency at which it increments.
pub trait Time {
    type Ticks: Ticks;

    type Frequency: Frequency;

    /// Returns the current time in hardware clock units.
    fn now(&self) -> Self::Ticks;

    /// Convert a value in seconds to the number of ticks that have to be
    /// counted in the hardware counter before `s` seconds have elapsed.
    fn ticks_from_seconds(s: u32) -> (r: Self::Ticks)
        requires
            s * Self::Frequency::spec_frequency() <= u32::MAX,
        ensures
            r.spec_value() == ((s * Self::Frequency::spec_frequency()) as int) % (Self::Ticks::spec_modulus() as int),
    {
        let frequency: u32 = Self::Frequency::frequency();
        let ticks: u32 = s * frequency;
        proof {
            Self::Ticks::lemma_from(ticks);
        }
        Self::Ticks::from(ticks)
    }

    /// Convert a value in milliseconds to the number of ticks that have to be
    /// counted in the hardware counter before `ms` milliseconds have elapsed.
    fn ticks_from_ms(ms: u32) -> (r: Self::Ticks)
        ensures
            r.spec_value() == (#[verifier::truncate] (((ms * Self::Frequency::spec_frequency()) / 1000) as u32)) as nat
                % Self::Ticks::spec_modulus(),
    {
        let ticks: u32 = scaled_ticks(ms, Self::Frequency::frequency(), 1000);
        proof {
            Self::Ticks::lemma_from(ticks);
        }
        Self::Ticks::from(ticks)
    }

    /// Convert a value in microseconds to the number of ticks that have to be
    /// counted in the hardware counter before `us` microseconds have elapsed.
    fn ticks_from_us(us: u32) -> (r: Self::Ticks)
        ensures
            r.spec_value() == (#[verifier::truncate] (((us * Self::Frequency::spec_frequency()) / 1_000_000) as u32)) as nat
                % Self::Ticks::spec_modulus(),
    {
        let ticks: u32 = scaled_ticks(us, Self::Frequency::frequency(), 1_000_000);
        proof {
            Self::Ticks::lemma_from(ticks);
        }
        Self::Ticks::from(ticks)
    }
}

/// `(count * frequency) / divisor`, computed on 64 bits and truncated to 32.
fn scaled_ticks(count: u32, frequency: u32, divisor: u64) -> (r: u32)
    requires
        divisor > 0,
    ensures
        r == #[verifier::truncate] (((count * frequency) / (divisor as int)) as u32),
{
    assert(count * frequency <= u64::MAX) by (nonlinear_arith)
        requires
            count <= u32::MAX,
            frequency <= u32::MAX,
    {
    }
    let product: u64 = count as u64 * frequency as u64;
    #[verifier::truncate] ((product / divisor) as u32)
}


/// A free-running counter that can be started and stopped.
pub trait Counter: Time {
    /// Starts the counter.
    fn start(&self) -> ReturnCode;

    /// Stops the counter.
    fn stop(&self) -> ReturnCode;

    /// Whether the counter is running.
    fn is_running(&self) -> bool;
}

/// Handles the firing of an alarm.
pub trait AlarmClient {
    /// The alarm fired.
    fn fired(&self);
}

/// An alarm that fires at a point in time of its counter.
pub trait Alarm<'a>: Time {
    /// Sets the alarm to fire at `tics` and enables it.
    fn set_alarm(&self, tics: Self::Ticks);

    /// Sets the alarm to fire `duration` ticks from now, wrapping around the
    /// width of the counter.
    fn set_alarm_from_now(&self, duration: Self::Ticks) {
        let now: Self::Ticks = self.now();
        self.set_alarm(now.wrapping_add(duration))
    }

    /// The time the alarm is set to.
    fn get_alarm(&self) -> Self::Ticks;

    /// Sets the client called when the alarm fires.
    fn set_client(&'a self, client: &'a dyn AlarmClient);

    /// Whether the alarm is enabled.
    fn is_enabled(&self) -> bool;

    /// Enables the alarm at the time it is set to.
    fn enable(&self) {
        let alarm: Self::Ticks = self.get_alarm();
        self.set_alarm(alarm)
    }

    /// Disables the alarm.
    fn disable(&self);
}

/// Handles the firing of a timer.
pub trait TimerClient {
    /// The timer fired.
    fn fired(&self);
}

/// A timer that fires once, or repeatedly, after an interval.
pub trait Timer<'a>: Time {
    /// Sets the client called when the timer fires.
    fn set_client(&'a self, client: &'a dyn TimerClient);

    /// Starts the timer to fire once after `interval`.
    fn oneshot(&self, interval: Self::Ticks);

    /// Starts the timer to fire every `interval`.
    fn repeat(&self, interval: Self::Ticks);

    /// The interval of a repeating timer, `None` for a one-shot timer.
    fn interval(&self) -> Option<Self::Ticks>;

    /// Whether the timer fires once.
    fn is_oneshot(&self) -> (r: bool)
        default_ensures
            exists|i: Option<Self::Ticks>|
                #[trigger] call_ensures(Self::interval, (self,), i) && r == i is None,
    {
        self.interval().is_none()
    }

    /// Whether the timer repeats.
    fn is_repeating(&self) -> (r: bool)
        default_ensures
            exists|i: Option<Self::Ticks>|
                #[trigger] call_ensures(Self::interval, (self,), i) && r == i is Some,
    {
        self.interval().is_some()
    }

    /// The time until the timer fires, `None` if it is not enabled.
    fn time_remaining(&self) -> Option<Self::Ticks>;

    /// Whether the timer is enabled.
    fn is_enabled(&self) -> (r: bool)
        default_ensures
            exists|t: Option<Self::Ticks>|
                #[trigger] call_ensures(Self::time_remaining, (self,), t) && r == t is Some,
    {
        self.time_remaining().is_some()
    }

    /// Stops the timer.
    fn cancel(&self);
}

} // verus!
