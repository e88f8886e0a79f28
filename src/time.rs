//! Time units, and conversions between them.
//!
//! A conversion that multiplies saturates at `u32::MAX`; one that divides
//! rounds down. A conversion without a meaning (seconds to hertz) gives zero.
use vstd::prelude::*;

verus! {

/// Frequency unit - Bits per second
#[derive(Clone, Copy, Debug, PartialEq, Eq, Structural)]
pub struct Bps(pub u32);

/// Frequency unit - Hertz
#[derive(Clone, Copy, Debug, PartialEq, Eq, Structural)]
pub struct Hertz(pub u32);

/// Frequency unit - KiloHertz
#[derive(Clone, Copy, Debug, PartialEq, Eq, Structural)]
pub struct KiloHertz(pub u32);

/// Frequency unit - MegaHertz
#[derive(Clone, Copy, Debug, PartialEq, Eq, Structural)]
pub struct MegaHertz(pub u32);

/// Time unit - MilliSeconds
#[derive(Clone, Copy, Debug, PartialEq, Eq, Structural)]
pub struct MilliSeconds(pub u32);

/// Time unit - Seconds
#[derive(Clone, Copy, Debug, PartialEq, Eq, Structural)]
pub struct Seconds(pub u32);

/// Units of a [`TimeCount`].
#[derive(Clone, Copy, Debug, PartialEq, Eq, Structural)]
pub enum TimerUnits {
    Bps,
    Hertz,
    Kilohertz,
    Megahertz,
    Milliseconds,
    Seconds,
}

/// A value with its unit.
#[derive(Clone, Copy, Debug, PartialEq, Eq, Structural)]
pub struct TimeCount {
    pub value: u32,
    pub unity: TimerUnits,
}

/// `v * k`, or `u32::MAX` where the product does not fit.
pub open spec fn scaled(v: u32, k: u32) -> u32 {
    if v * k <= u32::MAX {
        (v * k) as u32
    } else {
        u32::MAX
    }
}

/// `1000 / v`: hertz from a period in milliseconds, or the reverse; zero for zero.
pub open spec fn per_thousand(v: u32) -> u32 {
    if v == 0 {
        0
    } else {
        1000u32 / v
    }
}

/// `v * k`, saturated at `u32::MAX`.
fn scale(v: u32, k: u32) -> (r: u32)
    ensures
        r == scaled(v, k),
{
    match v.checked_mul(k) {
        Some(p) => p,
        None => u32::MAX,
    }
}

/// `1000 / v`, or zero for zero.
fn thousand_over(v: u32) -> (r: u32)
    ensures
        r == per_thousand(v),
{
    if v == 0 {
        0
    } else {
        1000 / v
    }
}

/// Extension trait that adds convenience methods to the `u32` type
pub trait TimerUnit {

    /// Wrap in `Bps`
    fn bps(self) -> Bps;

    /// Wrap in `Hertz`
    fn hertz(self) -> Hertz;

    /// Wrap in `KiloHertz`
    fn kilohertz(self) -> KiloHertz;

    /// Wrap in `MegaHertz`
    fn megahertz(self) -> MegaHertz;

    /// Wrap in `MilliSeconds`
    fn milliseconds(self) -> MilliSeconds;

    /// Wrap in `Seconds`
    fn seconds(self) -> Seconds;

}

impl TimerUnit for u32 {

    fn bps(self) -> (r: Bps)
        ensures
            r == Bps(self),
    {
        Bps(self)
    }

    fn hertz(self) -> (r: Hertz)
        ensures
            r == Hertz(self),
    {
        Hertz(self)
    }

    fn kilohertz(self) -> (r: KiloHertz)
        ensures
            r == KiloHertz(self),
    {
        KiloHertz(self)
    }

    fn megahertz(self) -> (r: MegaHertz)
        ensures
            r == MegaHertz(self),
    {
        MegaHertz(self)
    }

    fn milliseconds(self) -> (r: MilliSeconds)
        ensures
            r == MilliSeconds(self),
    {
        MilliSeconds(self)
    }

    fn seconds(self) -> (r: Seconds)
        ensures
            r == Seconds(self),
    {
        Seconds(self)
    }

}

/// The value of a `Bps`.
impl From<Bps> for u32 {
    fn from(t: Bps) -> u32 {
        t.0
    }
}

impl vstd::std_specs::convert::FromSpecImpl<Bps> for u32 {
    open spec fn obeys_from_spec() -> bool {
        true
    }

    open spec fn from_spec(t: Bps) -> u32 {
        t.0
    }
}

/// The value of a `Hertz`.
impl From<Hertz> for u32 {
    fn from(t: Hertz) -> u32 {
        t.0
    }
}

impl vstd::std_specs::convert::FromSpecImpl<Hertz> for u32 {
    open spec fn obeys_from_spec() -> bool {
        true
    }

    open spec fn from_spec(t: Hertz) -> u32 {
        t.0
    }
}

/// The value of a `KiloHertz`.
impl From<KiloHertz> for u32 {
    fn from(t: KiloHertz) -> u32 {
        t.0
    }
}

impl vstd::std_specs::convert::FromSpecImpl<KiloHertz> for u32 {
    open spec fn obeys_from_spec() -> bool {
        true
    }

    open spec fn from_spec(t: KiloHertz) -> u32 {
        t.0
    }
}

/// The value of a `MegaHertz`.
impl From<MegaHertz> for u32 {
    fn from(t: MegaHertz) -> u32 {
        t.0
    }
}

impl vstd::std_specs::convert::FromSpecImpl<MegaHertz> for u32 {
    open spec fn obeys_from_spec() -> bool {
        true
    }

    open spec fn from_spec(t: MegaHertz) -> u32 {
        t.0
    }
}

/// The value of a `MilliSeconds`.
impl From<MilliSeconds> for u32 {
    fn from(t: MilliSeconds) -> u32 {
        t.0
    }
}

impl vstd::std_specs::convert::FromSpecImpl<MilliSeconds> for u32 {
    open spec fn obeys_from_spec() -> bool {
        true
    }

    open spec fn from_spec(t: MilliSeconds) -> u32 {
        t.0
    }
}

/// The value of a `Seconds`.
impl From<Seconds> for u32 {
    fn from(t: Seconds) -> u32 {
        t.0
    }
}

impl vstd::std_specs::convert::FromSpecImpl<Seconds> for u32 {
    open spec fn obeys_from_spec() -> bool {
        true
    }

    open spec fn from_spec(t: Seconds) -> u32 {
        t.0
    }
}

/// A value as `Bps`.
impl From<u32> for Bps {
    fn from(t: u32) -> Bps {
        Bps(t)
    }
}

impl vstd::std_specs::convert::FromSpecImpl<u32> for Bps {
    open spec fn obeys_from_spec() -> bool {
        true
    }

    open spec fn from_spec(t: u32) -> Bps {
        Bps(t)
    }
}

/// A value as `Hertz`.
impl From<u32> for Hertz {
    fn from(t: u32) -> Hertz {
        Hertz(t)
    }
}

impl vstd::std_specs::convert::FromSpecImpl<u32> for Hertz {
    open spec fn obeys_from_spec() -> bool {
        true
    }

    open spec fn from_spec(t: u32) -> Hertz {
        Hertz(t)
    }
}

/// A value as `KiloHertz`.
impl From<u32> for KiloHertz {
    fn from(t: u32) -> KiloHertz {
        KiloHertz(t)
    }
}

impl vstd::std_specs::convert::FromSpecImpl<u32> for KiloHertz {
    open spec fn obeys_from_spec() -> bool {
        true
    }

    open spec fn from_spec(t: u32) -> KiloHertz {
        KiloHertz(t)
    }
}

/// A value as `MegaHertz`.
impl From<u32> for MegaHertz {
    fn from(t: u32) -> MegaHertz {
        MegaHertz(t)
    }
}

impl vstd::std_specs::convert::FromSpecImpl<u32> for MegaHertz {
    open spec fn obeys_from_spec() -> bool {
        true
    }

    open spec fn from_spec(t: u32) -> MegaHertz {
        MegaHertz(t)
    }
}

/// A value as `MilliSeconds`.
impl From<u32> for MilliSeconds {
    fn from(t: u32) -> MilliSeconds {
        MilliSeconds(t)
    }
}

impl vstd::std_specs::convert::FromSpecImpl<u32> for MilliSeconds {
    open spec fn obeys_from_spec() -> bool {
        true
    }

    open spec fn from_spec(t: u32) -> MilliSeconds {
        MilliSeconds(t)
    }
}

/// A value as `Seconds`.
impl From<u32> for Seconds {
    fn from(t: u32) -> Seconds {
        Seconds(t)
    }
}

impl vstd::std_specs::convert::FromSpecImpl<u32> for Seconds {
    open spec fn obeys_from_spec() -> bool {
        true
    }

    open spec fn from_spec(t: u32) -> Seconds {
        Seconds(t)
    }
}

/// `Seconds` in `MilliSeconds`.
impl From<Seconds> for MilliSeconds {
    fn from(t: Seconds) -> MilliSeconds {
        MilliSeconds(scale(t.0, 1000))
    }
}

impl vstd::std_specs::convert::FromSpecImpl<Seconds> for MilliSeconds {
    open spec fn obeys_from_spec() -> bool {
        true
    }

    open spec fn from_spec(t: Seconds) -> MilliSeconds {
        MilliSeconds(scaled(t.0, 1000))
    }
}

/// `MilliSeconds` in `Seconds`.
impl From<MilliSeconds> for Seconds {
    fn from(t: MilliSeconds) -> Seconds {
        Seconds(t.0 / 1000)
    }
}

impl vstd::std_specs::convert::FromSpecImpl<MilliSeconds> for Seconds {
    open spec fn obeys_from_spec() -> bool {
        true
    }

    open spec fn from_spec(t: MilliSeconds) -> Seconds {
        Seconds(t.0 / 1000)
    }
}

/// `Bps` in `Hertz`.
impl From<Bps> for Hertz {
    fn from(t: Bps) -> Hertz {
        Hertz(t.0)
    }
}

impl vstd::std_specs::convert::FromSpecImpl<Bps> for Hertz {
    open spec fn obeys_from_spec() -> bool {
        true
    }

    open spec fn from_spec(t: Bps) -> Hertz {
        Hertz(t.0)
    }
}

/// `Hertz` in `Bps`.
impl From<Hertz> for Bps {
    fn from(t: Hertz) -> Bps {
        Bps(t.0)
    }
}

impl vstd::std_specs::convert::FromSpecImpl<Hertz> for Bps {
    open spec fn obeys_from_spec() -> bool {
        true
    }

    open spec fn from_spec(t: Hertz) -> Bps {
        Bps(t.0)
    }
}

/// `KiloHertz` in `Hertz`.
impl From<KiloHertz> for Hertz {
    fn from(t: KiloHertz) -> Hertz {
        Hertz(scale(t.0, 1000))
    }
}

impl vstd::std_specs::convert::FromSpecImpl<KiloHertz> for Hertz {
    open spec fn obeys_from_spec() -> bool {
        true
    }

    open spec fn from_spec(t: KiloHertz) -> Hertz {
        Hertz(scaled(t.0, 1000))
    }
}

/// `Hertz` in `KiloHertz`.
impl From<Hertz> for KiloHertz {
    fn from(t: Hertz) -> KiloHertz {
        KiloHertz(t.0 / 1000)
    }
}

impl vstd::std_specs::convert::FromSpecImpl<Hertz> for KiloHertz {
    open spec fn obeys_from_spec() -> bool {
        true
    }

    open spec fn from_spec(t: Hertz) -> KiloHertz {
        KiloHertz(t.0 / 1000)
    }
}

/// `MegaHertz` in `Hertz`.
impl From<MegaHertz> for Hertz {
    fn from(t: MegaHertz) -> Hertz {
        Hertz(scale(t.0, 1_000_000))
    }
}

impl vstd::std_specs::convert::FromSpecImpl<MegaHertz> for Hertz {
    open spec fn obeys_from_spec() -> bool {
        true
    }

    open spec fn from_spec(t: MegaHertz) -> Hertz {
        Hertz(scaled(t.0, 1_000_000))
    }
}

/// `Hertz` in `MegaHertz`.
impl From<Hertz> for MegaHertz {
    fn from(t: Hertz) -> MegaHertz {
        MegaHertz(t.0 / 1_000_000)
    }
}

impl vstd::std_specs::convert::FromSpecImpl<Hertz> for MegaHertz {
    open spec fn obeys_from_spec() -> bool {
        true
    }

    open spec fn from_spec(t: Hertz) -> MegaHertz {
        MegaHertz(t.0 / 1_000_000)
    }
}

/// `MegaHertz` in `KiloHertz`.
impl From<MegaHertz> for KiloHertz {
    fn from(t: MegaHertz) -> KiloHertz {
        KiloHertz(scale(t.0, 1000))
    }
}

impl vstd::std_specs::convert::FromSpecImpl<MegaHertz> for KiloHertz {
    open spec fn obeys_from_spec() -> bool {
        true
    }

    open spec fn from_spec(t: MegaHertz) -> KiloHertz {
        KiloHertz(scaled(t.0, 1000))
    }
}

/// `KiloHertz` in `MegaHertz`.
impl From<KiloHertz> for MegaHertz {
    fn from(t: KiloHertz) -> MegaHertz {
        MegaHertz(t.0 / 1000)
    }
}

impl vstd::std_specs::convert::FromSpecImpl<KiloHertz> for MegaHertz {
    open spec fn obeys_from_spec() -> bool {
        true
    }

    open spec fn from_spec(t: KiloHertz) -> MegaHertz {
        MegaHertz(t.0 / 1000)
    }
}

/// A `Bps` value with its unit.
impl From<Bps> for TimeCount {
    fn from(t: Bps) -> TimeCount {
        TimeCount { value: t.0, unity: TimerUnits::Bps }
    }
}

impl vstd::std_specs::convert::FromSpecImpl<Bps> for TimeCount {
    open spec fn obeys_from_spec() -> bool {
        true
    }

    open spec fn from_spec(t: Bps) -> TimeCount {
        TimeCount { value: t.0, unity: TimerUnits::Bps }
    }
}

/// A `Hertz` value with its unit.
impl From<Hertz> for TimeCount {
    fn from(t: Hertz) -> TimeCount {
        TimeCount { value: t.0, unity: TimerUnits::Hertz }
    }
}

impl vstd::std_specs::convert::FromSpecImpl<Hertz> for TimeCount {
    open spec fn obeys_from_spec() -> bool {
        true
    }

    open spec fn from_spec(t: Hertz) -> TimeCount {
        TimeCount { value: t.0, unity: TimerUnits::Hertz }
    }
}

/// A `KiloHertz` value with its unit.
impl From<KiloHertz> for TimeCount {
    fn from(t: KiloHertz) -> TimeCount {
        TimeCount { value: t.0, unity: TimerUnits::Kilohertz }
    }
}

impl vstd::std_specs::convert::FromSpecImpl<KiloHertz> for TimeCount {
    open spec fn obeys_from_spec() -> bool {
        true
    }

    open spec fn from_spec(t: KiloHertz) -> TimeCount {
        TimeCount { value: t.0, unity: TimerUnits::Kilohertz }
    }
}

/// A `MegaHertz` value with its unit.
impl From<MegaHertz> for TimeCount {
    fn from(t: MegaHertz) -> TimeCount {
        TimeCount { value: t.0, unity: TimerUnits::Megahertz }
    }
}

impl vstd::std_specs::convert::FromSpecImpl<MegaHertz> for TimeCount {
    open spec fn obeys_from_spec() -> bool {
        true
    }

    open spec fn from_spec(t: MegaHertz) -> TimeCount {
        TimeCount { value: t.0, unity: TimerUnits::Megahertz }
    }
}

/// A `MilliSeconds` value with its unit.
impl From<MilliSeconds> for TimeCount {
    fn from(t: MilliSeconds) -> TimeCount {
        TimeCount { value: t.0, unity: TimerUnits::Milliseconds }
    }
}

impl vstd::std_specs::convert::FromSpecImpl<MilliSeconds> for TimeCount {
    open spec fn obeys_from_spec() -> bool {
        true
    }

    open spec fn from_spec(t: MilliSeconds) -> TimeCount {
        TimeCount { value: t.0, unity: TimerUnits::Milliseconds }
    }
}

/// A `Seconds` value with its unit.
impl From<Seconds> for TimeCount {
    fn from(t: Seconds) -> TimeCount {
        TimeCount { value: t.0, unity: TimerUnits::Seconds }
    }
}

impl vstd::std_specs::convert::FromSpecImpl<Seconds> for TimeCount {
    open spec fn obeys_from_spec() -> bool {
        true
    }

    open spec fn from_spec(t: Seconds) -> TimeCount {
        TimeCount { value: t.0, unity: TimerUnits::Seconds }
    }
}

/// A `TimeCount` in `Bps`; zero from a unit it does not convert from.
impl From<TimeCount> for Bps {
    fn from(t: TimeCount) -> Bps {
        match t.unity {
            TimerUnits::Bps => Bps(t.value),
            TimerUnits::Hertz => Bps(t.value),
            TimerUnits::Kilohertz => Bps(scale(t.value, 1000)),
            TimerUnits::Megahertz => Bps(scale(t.value, 1_000_000)),
            TimerUnits::Milliseconds => Bps(thousand_over(t.value)),
            _ => Bps(0),
        }
    }
}

impl vstd::std_specs::convert::FromSpecImpl<TimeCount> for Bps {
    open spec fn obeys_from_spec() -> bool {
        true
    }

    open spec fn from_spec(t: TimeCount) -> Bps {
        match t.unity {
            TimerUnits::Bps => Bps(t.value),
            TimerUnits::Hertz => Bps(t.value),
            TimerUnits::Kilohertz => Bps(scaled(t.value, 1000)),
            TimerUnits::Megahertz => Bps(scaled(t.value, 1_000_000)),
            TimerUnits::Milliseconds => Bps(per_thousand(t.value)),
            _ => Bps(0),
        }
    }
}

/// A `TimeCount` in `Hertz`; zero from a unit it does not convert from.
impl From<TimeCount> for Hertz {
    fn from(t: TimeCount) -> Hertz {
        match t.unity {
            TimerUnits::Bps => Hertz(t.value),
            TimerUnits::Hertz => Hertz(t.value),
            TimerUnits::Kilohertz => Hertz(scale(t.value, 1000)),
            TimerUnits::Megahertz => Hertz(scale(t.value, 1_000_000)),
            TimerUnits::Milliseconds => Hertz(thousand_over(t.value)),
            _ => Hertz(0),
        }
    }
}

impl vstd::std_specs::convert::FromSpecImpl<TimeCount> for Hertz {
    open spec fn obeys_from_spec() -> bool {
        true
    }

    open spec fn from_spec(t: TimeCount) -> Hertz {
        match t.unity {
            TimerUnits::Bps => Hertz(t.value),
            TimerUnits::Hertz => Hertz(t.value),
            TimerUnits::Kilohertz => Hertz(scaled(t.value, 1000)),
            TimerUnits::Megahertz => Hertz(scaled(t.value, 1_000_000)),
            TimerUnits::Milliseconds => Hertz(per_thousand(t.value)),
            _ => Hertz(0),
        }
    }
}

/// A `TimeCount` in `KiloHertz`; zero from a unit it does not convert from.
impl From<TimeCount> for KiloHertz {
    fn from(t: TimeCount) -> KiloHertz {
        match t.unity {
            TimerUnits::Bps => KiloHertz(t.value / 1000),
            TimerUnits::Hertz => KiloHertz(t.value / 1000),
            TimerUnits::Kilohertz => KiloHertz(t.value),
            TimerUnits::Megahertz => KiloHertz(scale(t.value, 1000)),
            _ => KiloHertz(0),
        }
    }
}

impl vstd::std_specs::convert::FromSpecImpl<TimeCount> for KiloHertz {
    open spec fn obeys_from_spec() -> bool {
        true
    }

    open spec fn from_spec(t: TimeCount) -> KiloHertz {
        match t.unity {
            TimerUnits::Bps => KiloHertz(t.value / 1000),
            TimerUnits::Hertz => KiloHertz(t.value / 1000),
            TimerUnits::Kilohertz => KiloHertz(t.value),
            TimerUnits::Megahertz => KiloHertz(scaled(t.value, 1000)),
            _ => KiloHertz(0),
        }
    }
}

/// A `TimeCount` in `MegaHertz`; zero from a unit it does not convert from.
impl From<TimeCount> for MegaHertz {
    fn from(t: TimeCount) -> MegaHertz {
        match t.unity {
            TimerUnits::Bps => MegaHertz(t.value / 1_000_000),
            TimerUnits::Hertz => MegaHertz(t.value / 1_000_000),
            TimerUnits::Kilohertz => MegaHertz(t.value / 1000),
            TimerUnits::Megahertz => MegaHertz(t.value),
            _ => MegaHertz(0),
        }
    }
}

impl vstd::std_specs::convert::FromSpecImpl<TimeCount> for MegaHertz {
    open spec fn obeys_from_spec() -> bool {
        true
    }

    open spec fn from_spec(t: TimeCount) -> MegaHertz {
        match t.unity {
            TimerUnits::Bps => MegaHertz(t.value / 1_000_000),
            TimerUnits::Hertz => MegaHertz(t.value / 1_000_000),
            TimerUnits::Kilohertz => MegaHertz(t.value / 1000),
            TimerUnits::Megahertz => MegaHertz(t.value),
            _ => MegaHertz(0),
        }
    }
}

/// A `TimeCount` in `MilliSeconds`; zero from a unit it does not convert from.
impl From<TimeCount> for MilliSeconds {
    fn from(t: TimeCount) -> MilliSeconds {
        match t.unity {
            TimerUnits::Milliseconds => MilliSeconds(t.value),
            TimerUnits::Seconds => MilliSeconds(scale(t.value, 1000)),
            TimerUnits::Hertz => MilliSeconds(thousand_over(t.value)),
            TimerUnits::Bps => MilliSeconds(thousand_over(t.value)),
            _ => MilliSeconds(0),
        }
    }
}

impl vstd::std_specs::convert::FromSpecImpl<TimeCount> for MilliSeconds {
    open spec fn obeys_from_spec() -> bool {
        true
    }

    open spec fn from_spec(t: TimeCount) -> MilliSeconds {
        match t.unity {
            TimerUnits::Milliseconds => MilliSeconds(t.value),
            TimerUnits::Seconds => MilliSeconds(scaled(t.value, 1000)),
            TimerUnits::Hertz => MilliSeconds(per_thousand(t.value)),
            TimerUnits::Bps => MilliSeconds(per_thousand(t.value)),
            _ => MilliSeconds(0),
        }
    }
}

/// A `TimeCount` in `Seconds`; zero from a unit it does not convert from.
impl From<TimeCount> for Seconds {
    fn from(t: TimeCount) -> Seconds {
        match t.unity {
            TimerUnits::Milliseconds => Seconds(t.value / 1000),
            TimerUnits::Seconds => Seconds(t.value),
            _ => Seconds(0),
        }
    }
}

impl vstd::std_specs::convert::FromSpecImpl<TimeCount> for Seconds {
    open spec fn obeys_from_spec() -> bool {
        true
    }

    open spec fn from_spec(t: TimeCount) -> Seconds {
        match t.unity {
            TimerUnits::Milliseconds => Seconds(t.value / 1000),
            TimerUnits::Seconds => Seconds(t.value),
            _ => Seconds(0),
        }
    }
}

impl TimeCount {
    /// Whether the unit is one of time.
    pub fn is_period(&self) -> (r: bool)
        ensures
            r == (self.unity is Milliseconds || self.unity is Seconds),
    {
        match self.unity {
            TimerUnits::Milliseconds | TimerUnits::Seconds => true,
            _ => false,
        }
    }

    /// Whether the unit is one of frequency.
    pub fn is_frequency(&self) -> (r: bool)
        ensures
            r == !(self.unity is Milliseconds || self.unity is Seconds),
    {
        match self.unity {
            TimerUnits::Milliseconds | TimerUnits::Seconds => false,
            _ => true,
        }
    }
}

} // verus!
