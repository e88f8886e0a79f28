//! Timers: requests, errors and lifecycle markers shared by the two families.
use vstd::prelude::*;

pub mod timer16;
pub mod timer32;

pub use timer16::{ClockSource, CountSetup, TimerARegisters, TimerConfig, TimerExt};
pub use timer32::{
    Channel, Channel0, Channel1, ChannelNotDefined, FreeRunning, LoadSetup, OneShot, Timer32Block,
    Timer32Config, Timer32Ext, Timer32Registers,
};

verus! {

/// Lifecycle stage of a timer, carried in its type.
pub trait State {}

/// No clock snapshot is bound yet: the timer cannot be started.
pub struct ClockNotDefined;

/// A clock snapshot is bound: the timer can be started.
pub struct ClockDefined;

impl State for ClockNotDefined {}

impl State for ClockDefined {}

/// Unit of the value of a [`Count`].
#[derive(Clone, Copy, Debug, PartialEq, Eq, Structural)]
pub enum TimerUnit {
    Hertz,
    Kilohertz,
    Milliseconds,
    Seconds,
}

/// Why a timer operation was refused.
#[derive(Clone, Copy, Debug, PartialEq, Eq, Structural)]
pub enum Error {
    /// A stop was asked of a timer that is not running.
    Disabled,
    /// A start was asked of a timer that is running.
    Enabled,
    /// No clock source, divisor and count reproduce the request.
    Unreachable,
}

/// What a timer is asked to do: expire at a frequency, or after a period.
#[derive(Clone, Copy, Debug, PartialEq, Eq, Structural)]
pub struct Count(pub u32, pub TimerUnit);

/// A request brought to hertz (a frequency) or to milliseconds (a period).
#[derive(Clone, Copy, Debug, PartialEq, Eq, Structural)]
pub struct Normalized {
    pub value: u32,
    pub period: bool,
}

/// `count` in hertz or milliseconds; `None` where the scaled value does not
/// fit 32 bits.
pub open spec fn normalized(count: Count) -> Option<Normalized> {
    match count.1 {
        TimerUnit::Hertz => Some(Normalized { value: count.0, period: false }),
        TimerUnit::Milliseconds => Some(Normalized { value: count.0, period: true }),
        TimerUnit::Kilohertz => if count.0 * 1000 <= u32::MAX {
            Some(Normalized { value: (count.0 * 1000) as u32, period: false })
        } else {
            None
        },
        TimerUnit::Seconds => if count.0 * 1000 <= u32::MAX {
            Some(Normalized { value: (count.0 * 1000) as u32, period: true })
        } else {
            None
        },
    }
}

/// Ticks of a `freq` hertz clock in one interval of `n`: `freq / value` for a
/// frequency, `value * freq / 1000` for a period in milliseconds.
pub open spec fn tick_ratio(freq: u32, n: Normalized) -> int {
    if n.period {
        n.value as int * freq as int / 1000
    } else {
        freq as int / n.value as int
    }
}

/// Brings `count` to hertz or milliseconds.
pub fn normalize(count: Count) -> (r: Option<Normalized>)
    ensures
        r == normalized(count),
{
    match count.1 {
        TimerUnit::Hertz => Some(Normalized { value: count.0, period: false }),
        TimerUnit::Milliseconds => Some(Normalized { value: count.0, period: true }),
        TimerUnit::Kilohertz => match count.0.checked_mul(1000) {
            Some(v) => Some(Normalized { value: v, period: false }),
            None => None,
        },
        TimerUnit::Seconds => match count.0.checked_mul(1000) {
            Some(v) => Some(Normalized { value: v, period: true }),
            None => None,
        },
    }
}

/// Ticks of a `freq` hertz clock in one interval of `n`, in 64 bits, where no
/// product of two 32-bit values overflows.
pub(crate) fn ratio_of(freq: u32, n: Normalized) -> (r: u64)
    requires
        n.period || n.value > 0,
    ensures
        r == tick_ratio(freq, n),
{
    if n.period {
        let v = n.value as u64;
        let f = freq as u64;
        assert(v * f <= u32::MAX as int * u32::MAX as int) by (nonlinear_arith)
            requires
                v <= u32::MAX,
                f <= u32::MAX,
        ;
        v * f / 1000
    } else {
        (freq / n.value) as u64
    }
}

} // verus!
