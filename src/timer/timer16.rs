//! Timer_A: the 16-bit timer. It counts ACLK or SMCLK, divided by an input
//! divider and its extension, up to the value of its compare register.
use vstd::prelude::*;

use crate::clock::Clocks;
use crate::register::{field16, lemma_disjoint_field16, lemma_with_field16, set_field16, with_field16};
use crate::time::Hertz;
use crate::timer::{
    normalize, normalized, ratio_of, tick_ratio, ClockDefined, ClockNotDefined, Count, Error,
    Normalized, State, TimerUnit,
};
use vstd::arithmetic::div_mod::lemma_div_denominator;

verus! {

/// Largest divisor that the input divider and its extension make together.
pub const MAX_PRESCALER: u32 = 0x0040;

/// Largest value of the 16-bit compare register.
pub const MAX_COUNT: u32 = 0xFFFF;

/// Source ticks that one interval must stay below: `MAX_PRESCALER * MAX_COUNT`.
pub const MAX_PERIOD: u64 = 0x003F_FFC0;

/// Offset of TASSEL, the clock source select field of TAxCTL.
pub const TASSEL: u16 = 8;

/// Offset of ID, the input divider field of TAxCTL.
pub const ID: u16 = 6;

/// Offset of MC, the mode control field of TAxCTL.
pub const MC: u16 = 4;

/// Offset of TAIE, the interrupt enable bit of TAxCTL.
pub const TAIE: u16 = 1;

/// Offset of TAIFG, the interrupt flag of TAxCTL.
pub const TAIFG: u16 = 0;

/// MC value of a stopped timer.
pub const MC_STOP: u16 = 0;

/// MC value of up mode: the counter runs from zero up to TAxCCR0 and wraps.
pub const MC_UP: u16 = 1;

/// The inputs a Timer_A can count.
#[derive(Clone, Copy, Debug, PartialEq, Eq, Structural)]
pub enum ClockSource {
    ExternalTxclk,
    Aclk,
    Smclk,
    InvertedExternalTxclk,
}

/// The TASSEL value that selects `source`.
pub open spec fn tassel_of(source: ClockSource) -> u16 {
    match source {
        ClockSource::ExternalTxclk => 0,
        ClockSource::Aclk => 1,
        ClockSource::Smclk => 2,
        ClockSource::InvertedExternalTxclk => 3,
    }
}

/// `2` to the power `e`, for an ID value.
pub open spec fn pow2_id(e: u16) -> int {
    if e == 0 {
        1
    } else if e == 1 {
        2
    } else if e == 2 {
        4
    } else {
        8
    }
}

/// The register file of one Timer_A instance: TAxCTL, TAxR, TAxCCR0, TAxEX0.
#[derive(Clone, Copy, Debug, PartialEq, Eq, Structural)]
pub struct TimerARegisters {
    pub ctl: u16,
    pub r: u16,
    pub ccr0: u16,
    pub ex0: u16,
}

impl TimerARegisters {
    /// The register values after a reset.
    pub fn reset() -> (r: TimerARegisters)
        ensures
            r == (TimerARegisters { ctl: 0, r: 0, ccr0: 0, ex0: 0 }),
    {
        TimerARegisters { ctl: 0, r: 0, ccr0: 0, ex0: 0 }
    }

    /// The mode control field.
    pub open spec fn mode(self) -> u16 {
        field16(self.ctl, MC, 3)
    }

    /// Whether the timer counts.
    pub open spec fn running(self) -> bool {
        self.mode() != MC_STOP
    }

    /// The clock source select field.
    pub open spec fn source_select(self) -> u16 {
        field16(self.ctl, TASSEL, 3)
    }

    /// The divisor applied to the clock source: `2^ID * (TAIDEX + 1)`.
    pub open spec fn divisor(self) -> int {
        pow2_id(field16(self.ctl, ID, 3)) * (field16(self.ex0, 0, 7) + 1)
    }

    /// Whether the timer interrupt is enabled.
    pub open spec fn interrupt_on(self) -> bool {
        field16(self.ctl, TAIE, 1) == 1
    }

    /// Whether the interrupt flag is set.
    pub open spec fn pending(self) -> bool {
        field16(self.ctl, TAIFG, 1) == 1
    }

    /// The same registers with TAxCTL replaced.
    pub open spec fn with_ctl(self, ctl: u16) -> TimerARegisters {
        TimerARegisters { ctl, r: self.r, ccr0: self.ccr0, ex0: self.ex0 }
    }
}

/// Divisors that ID (1, 2, 4 or 8) and TAIDEX (1 to 8) make together.
pub open spec fn is_prescaler(p: int) -> bool {
    ||| 1 <= p <= 8
    ||| 10 <= p <= 16 && p % 2 == 0
    ||| 20 <= p <= 32 && p % 4 == 0
    ||| 40 <= p <= 64 && p % 8 == 0
}

/// The least divisor of the table that is at least `min`.
pub open spec fn least_prescaler(min: int) -> int {
    if min <= 1 {
        1
    } else if min <= 8 {
        min
    } else if min <= 16 {
        min + min % 2
    } else if min <= 32 {
        min + (4 - min % 4) % 4
    } else {
        min + (8 - min % 8) % 8
    }
}

/// The ID value for divisor `p` of the table.
pub open spec fn id_of(p: int) -> u16 {
    if p <= 8 {
        0
    } else if p <= 16 {
        1
    } else if p <= 32 {
        2
    } else {
        3
    }
}

/// The TAIDEX value for divisor `p` of the table.
pub open spec fn idex_of(p: int) -> u16 {
    (p / pow2_id(id_of(p)) - 1) as u16
}

/// `least_prescaler(min)` is the least divisor of the table at or above `min`.
pub proof fn lemma_least_prescaler(min: int)
    requires
        min <= MAX_PRESCALER,
    ensures
        is_prescaler(least_prescaler(min)),
        min <= least_prescaler(min),
        forall|q: int| is_prescaler(q) && min <= q ==> least_prescaler(min) <= q,
{
}

/// ID and TAIDEX, written for a divisor of the table, make that divisor.
pub proof fn lemma_divider_fields(p: int)
    requires
        is_prescaler(p),
    ensures
        id_of(p) <= 3,
        idex_of(p) <= 7,
        pow2_id(id_of(p)) * (idex_of(p) + 1) == p,
{
    if p <= 8 {
        assert(idex_of(p) == p - 1);
    } else if p <= 16 {
        assert(idex_of(p) == p / 2 - 1);
        assert(p == (p / 2) * 2);
    } else if p <= 32 {
        assert(idex_of(p) == p / 4 - 1);
        assert(p == (p / 4) * 4);
    } else {
        assert(idex_of(p) == p / 8 - 1);
        assert(p == (p / 8) * 8);
    }
}

/// Clock source, divisor and compare value that reproduce a request.
#[derive(Clone, Copy, Debug, PartialEq, Eq, Structural)]
pub struct CountSetup {
    pub source: ClockSource,
    pub prescaler: u8,
    pub count: u16,
}

/// The minimal divisor for `ratio` source ticks: `ratio / 65535`, and one
/// step above it for a period, so that the divided count covers the whole
/// period.
pub open spec fn min_divisor(ratio: int, period: bool) -> int {
    if period {
        ratio / MAX_COUNT as int + 1
    } else {
        ratio / MAX_COUNT as int
    }
}

/// The divisor chosen for `ratio` source ticks: the least of the table at or
/// above the minimal divisor, or the next one of the table where the divided
/// count would not fit the compare register.
pub open spec fn chosen_prescaler(ratio: int, period: bool) -> int {
    let p = least_prescaler(min_divisor(ratio, period));
    if ratio / p <= MAX_COUNT {
        p
    } else {
        least_prescaler(p + 1)
    }
}

/// The setup that counts `ratio` ticks of `source`; none for no ticks.
pub open spec fn setup_for(source: ClockSource, ratio: int, period: bool) -> Option<CountSetup> {
    if ratio == 0 {
        None
    } else {
        let p = chosen_prescaler(ratio, period);
        Some(CountSetup { source, prescaler: p as u8, count: (ratio / p) as u16 })
    }
}

/// What a request programs, once brought to hertz or milliseconds: SMCLK
/// where its ticks stay below `MAX_PERIOD`, else ACLK where its ticks do,
/// else nothing. Zero hertz programs nothing, nor does a value whose product
/// with the ACLK frequency overflows 32 bits.
pub open spec fn normalized_setup(clocks: Clocks, n: Normalized) -> Option<CountSetup> {
    if !n.period && n.value == 0 {
        None
    } else if n.value * clocks.aclk.0 > u32::MAX {
        None
    } else {
        let s = tick_ratio(clocks.smclk.0, n);
        let a = tick_ratio(clocks.aclk.0, n);
        if s < MAX_PERIOD {
            setup_for(ClockSource::Smclk, s, n.period)
        } else if a < MAX_PERIOD {
            setup_for(ClockSource::Aclk, a, n.period)
        } else {
            None
        }
    }
}

/// What a request programs under `clocks`; `None` where it is unreachable.
pub open spec fn count_setup(clocks: Clocks, count: Count) -> Option<CountSetup> {
    match normalized(count) {
        None => None,
        Some(n) => normalized_setup(clocks, n),
    }
}

/// A divisor above `ratio / 65535` leaves a count below 65535.
proof fn lemma_count_fits(ratio: int, p: int)
    requires
        0 <= ratio,
        ratio / 65535 < p,
    ensures
        ratio / p < MAX_COUNT,
{
    let q = ratio / 65535;
    assert(ratio < (q + 1) * 65535);
    assert(ratio < p * 65535) by (nonlinear_arith)
        requires
            ratio < (q + 1) * 65535,
            q + 1 <= p,
    ;
    assert(ratio / p < 65535) by (nonlinear_arith)
        requires
            ratio < p * 65535,
            0 < p,
    ;
}

/// The chosen divisor is the least divisor of the table that is at or above
/// the minimal divisor and leaves a count that fits the compare register.
pub proof fn lemma_chosen_prescaler(ratio: int, period: bool)
    requires
        0 < ratio < MAX_PERIOD,
    ensures
        0 <= min_divisor(ratio, period) <= MAX_PRESCALER,
        ratio / least_prescaler(min_divisor(ratio, period)) > MAX_COUNT ==> least_prescaler(
            min_divisor(ratio, period),
        ) < MAX_PRESCALER,
        is_prescaler(chosen_prescaler(ratio, period)),
        min_divisor(ratio, period) <= chosen_prescaler(ratio, period),
        ratio / chosen_prescaler(ratio, period) <= MAX_COUNT,
        forall|q: int|
            is_prescaler(q) && min_divisor(ratio, period) <= q && ratio / q <= MAX_COUNT
                ==> chosen_prescaler(ratio, period) <= q,
{
    let m = min_divisor(ratio, period);
    let q = ratio / 65535;
    assert(q <= 63);
    lemma_least_prescaler(m);
    let p = least_prescaler(m);
    if ratio / p > MAX_COUNT {
        if p > q {
            lemma_count_fits(ratio, p);
        }
        assert(!period && p == q);
        lemma_least_prescaler(p + 1);
        lemma_count_fits(ratio, least_prescaler(p + 1));
    }
}

/// The least divisor of the table at or above `min_prescaler`.
fn get_prescaler(min_prescaler: u8) -> (r: u8)
    requires
        min_prescaler <= MAX_PRESCALER,
    ensures
        r == least_prescaler(min_prescaler as int),
{
    if min_prescaler <= 1 {
        1
    } else if min_prescaler <= 8 {
        min_prescaler
    } else if min_prescaler <= 10 {
        10
    } else if min_prescaler <= 12 {
        12
    } else if min_prescaler <= 14 {
        14
    } else if min_prescaler <= 16 {
        16
    } else if min_prescaler <= 20 {
        20
    } else if min_prescaler <= 24 {
        24
    } else if min_prescaler <= 28 {
        28
    } else if min_prescaler <= 32 {
        32
    } else if min_prescaler <= 40 {
        40
    } else if min_prescaler <= 48 {
        48
    } else if min_prescaler <= 56 {
        56
    } else {
        64
    }
}

/// The setup that counts `count_ratio` ticks of `source`.
fn setup_from_ratio(source: ClockSource, count_ratio: u64, period: bool) -> (r: Option<CountSetup>)
    requires
        count_ratio < MAX_PERIOD,
    ensures
        r == setup_for(source, count_ratio as int, period),
{
    if count_ratio == 0 {
        return None;
    }
    let min_prescaler: u64 = if period {
        count_ratio / MAX_COUNT as u64 + 1
    } else {
        count_ratio / MAX_COUNT as u64
    };
    proof {
        lemma_chosen_prescaler(count_ratio as int, period);
    }
    let mut prescaler = get_prescaler(min_prescaler as u8);
    if count_ratio / prescaler as u64 > MAX_COUNT as u64 {
        prescaler = get_prescaler(prescaler + 1);
    }
    let count = (count_ratio / prescaler as u64) as u16;
    Some(CountSetup { source, prescaler, count })
}

/// What the request `n` programs under `clocks`.
fn setup_count(clocks: &Clocks, n: Normalized) -> (r: Option<CountSetup>)
    ensures
        r == normalized_setup(*clocks, n),
{
    if !n.period && n.value == 0 {
        return None;
    }
    if n.value.checked_mul(clocks.aclk.0).is_none() {
        return None;
    }
    let smclk_ratio = ratio_of(clocks.smclk.0, n);
    let aclk_ratio = ratio_of(clocks.aclk.0, n);
    if smclk_ratio < MAX_PERIOD {
        setup_from_ratio(ClockSource::Smclk, smclk_ratio, n.period)
    } else if aclk_ratio < MAX_PERIOD {
        setup_from_ratio(ClockSource::Aclk, aclk_ratio, n.period)
    } else {
        None
    }
}

/// The divisor of every setup is one of the table.
pub proof fn lemma_setup_prescaler(clocks: Clocks, count: Count)
    requires
        count_setup(clocks, count) is Some,
    ensures
        is_prescaler(count_setup(clocks, count)->0.prescaler as int),
{
    let n = normalized(count)->0;
    let ratio = if tick_ratio(clocks.smclk.0, n) < MAX_PERIOD {
        tick_ratio(clocks.smclk.0, n)
    } else {
        tick_ratio(clocks.aclk.0, n)
    };
    lemma_chosen_prescaler(ratio, n.period);
}

/// What `count` programs under `clocks`; `None` where it is unreachable.
pub fn setup_timer(clocks: &Clocks, count: Count) -> (r: Option<CountSetup>)
    ensures
        r == count_setup(*clocks, count),
{
    match normalize(count) {
        Some(n) => setup_count(clocks, n),
        None => None,
    }
}

/// The register file once `setup` is written to `regs` and the timer is
/// started in up mode with its counter cleared. The interrupt enable bit and
/// the interrupt flag keep their values.
pub open spec fn programmed(regs: TimerARegisters, setup: CountSetup) -> TimerARegisters {
    let p = setup.prescaler as int;
    let ctl = with_field16(regs.ctl, TASSEL, 3, tassel_of(setup.source));
    let ctl = with_field16(ctl, ID, 3, id_of(p));
    let ctl = with_field16(ctl, MC, 3, MC_UP);
    TimerARegisters { ctl, r: 0, ccr0: setup.count, ex0: idex_of(p) }
}

/// The register file once the timer is stopped.
pub open spec fn stopped(regs: TimerARegisters) -> TimerARegisters {
    regs.with_ctl(with_field16(regs.ctl, MC, 3, MC_STOP))
}

/// Result and registers of a start request on `regs` under `clocks`.
pub open spec fn start_outcome(clocks: Clocks, regs: TimerARegisters, count: Count) -> (
    Result<(), Error>,
    TimerARegisters,
) {
    if regs.running() {
        (Err(Error::Enabled), regs)
    } else {
        match count_setup(clocks, count) {
            None => (Err(Error::Unreachable), regs),
            Some(setup) => (Ok(()), programmed(regs, setup)),
        }
    }
}

/// Result and registers of a stop request on `regs`.
pub open spec fn cancel_outcome(regs: TimerARegisters) -> (Result<(), Error>, TimerARegisters) {
    if regs.running() {
        (Ok(()), stopped(regs))
    } else {
        (Err(Error::Disabled), regs)
    }
}

/// Whether a period has elapsed, and the registers after the poll: the
/// interrupt flag is consumed when it is seen.
pub open spec fn wait_outcome(regs: TimerARegisters) -> (bool, TimerARegisters) {
    if regs.pending() {
        (true, regs.with_ctl(with_field16(regs.ctl, TAIFG, 1, 0)))
    } else {
        (false, regs)
    }
}

/// The frequency of the input that TASSEL value `select` picks, where it is
/// one of the two internal clocks.
pub open spec fn source_frequency(clocks: Clocks, select: u16) -> int {
    if select == 1 {
        clocks.aclk.0 as int
    } else if select == 2 {
        clocks.smclk.0 as int
    } else {
        0
    }
}

/// The fields of the registers that a setup programs.
pub proof fn lemma_programmed_fields(regs: TimerARegisters, setup: CountSetup)
    requires
        is_prescaler(setup.prescaler as int),
    ensures
        programmed(regs, setup).source_select() == tassel_of(setup.source),
        programmed(regs, setup).divisor() == setup.prescaler as int,
        programmed(regs, setup).mode() == MC_UP,
        programmed(regs, setup).interrupt_on() == regs.interrupt_on(),
        programmed(regs, setup).pending() == regs.pending(),
{
    let p = setup.prescaler as int;
    lemma_divider_fields(p);
    let t = tassel_of(setup.source);
    let id = id_of(p);
    let idex = idex_of(p);
    let c1 = with_field16(regs.ctl, TASSEL, 3, t);
    let c2 = with_field16(c1, ID, 3, id);
    lemma_with_field16(regs.ctl, TASSEL, 3, t);
    lemma_with_field16(c1, ID, 3, id);
    lemma_with_field16(c2, MC, 3, MC_UP);
    lemma_disjoint_field16(c1, ID, 3, id, TASSEL, 3);
    lemma_disjoint_field16(c2, MC, 3, MC_UP, TASSEL, 3);
    lemma_disjoint_field16(c2, MC, 3, MC_UP, ID, 3);
    lemma_disjoint_field16(regs.ctl, TASSEL, 3, t, TAIE, 1);
    lemma_disjoint_field16(c1, ID, 3, id, TAIE, 1);
    lemma_disjoint_field16(c2, MC, 3, MC_UP, TAIE, 1);
    lemma_disjoint_field16(regs.ctl, TASSEL, 3, t, TAIFG, 1);
    lemma_disjoint_field16(c1, ID, 3, id, TAIFG, 1);
    lemma_disjoint_field16(c2, MC, 3, MC_UP, TAIFG, 1);
    assert(field16(idex, 0, 7) == idex) by (bit_vector)
        requires
            idex <= 7,
    ;
}

/// A stopped timer does not run; its other fields keep their values.
pub proof fn lemma_stopped_fields(regs: TimerARegisters)
    ensures
        !stopped(regs).running(),
        stopped(regs).source_select() == regs.source_select(),
        stopped(regs).divisor() == regs.divisor(),
{
    lemma_with_field16(regs.ctl, MC, 3, MC_STOP);
    lemma_disjoint_field16(regs.ctl, MC, 3, MC_STOP, TASSEL, 3);
    lemma_disjoint_field16(regs.ctl, MC, 3, MC_STOP, ID, 3);
}

/// Frequency law: a request of `v` hertz whose product with the ACLK
/// frequency fits 32 bits, and that SMCLK, or else ACLK, counts in at least
/// one and fewer than `MAX_PERIOD` ticks, is reachable, and the
/// registers it programs reproduce it. The compare value is the source
/// frequency divided by divisor times `v`, rounded down: divisor times compare
/// value times `v` is within one divisor times `v` of the source frequency.
pub proof fn lemma_frequency_reproduced(clocks: Clocks, regs: TimerARegisters, v: u32)
    requires
        v > 0,
        v * clocks.aclk.0 <= u32::MAX,
        1 <= clocks.smclk.0 / v < MAX_PERIOD || (MAX_PERIOD <= clocks.smclk.0 / v && 1
            <= clocks.aclk.0 / v < MAX_PERIOD),
    ensures
        count_setup(clocks, Count(v, TimerUnit::Hertz)) is Some,
        ({
            let after = programmed(regs, count_setup(clocks, Count(v, TimerUnit::Hertz))->0);
            let f = source_frequency(clocks, after.source_select());
            &&& after.mode() == MC_UP
            &&& after.ccr0 == f / (after.divisor() * v)
            &&& after.divisor() * after.ccr0 * v <= f < after.divisor() * (after.ccr0 + 1) * v
        }),
{
    let n = Normalized { value: v, period: false };
    let s = tick_ratio(clocks.smclk.0, n);
    let ratio = if s < MAX_PERIOD {
        s
    } else {
        tick_ratio(clocks.aclk.0, n)
    };
    let f: int = if s < MAX_PERIOD {
        clocks.smclk.0 as int
    } else {
        clocks.aclk.0 as int
    };
    lemma_chosen_prescaler(ratio, false);
    let p = chosen_prescaler(ratio, false);
    let setup = count_setup(clocks, Count(v, TimerUnit::Hertz))->0;
    lemma_programmed_fields(regs, setup);
    lemma_div_denominator(f, v as int, p);
    assert(ratio / p == f / (v * p));
    let d = p * v;
    let q = f / d;
    assert(d * q <= f < d * (q + 1)) by (nonlinear_arith)
        requires
            q == f / d,
            0 < d,
    ;
    assert(p * q * v == d * q && p * (q + 1) * v == d * (q + 1)) by (nonlinear_arith)
        requires
            d == p * v,
    ;
}

/// Stopping twice: whatever the first stop returned, the second is refused
/// with `Disabled` and changes nothing.
pub proof fn lemma_cancel_twice(regs: TimerARegisters)
    ensures
        cancel_outcome(cancel_outcome(regs).1) == (Err::<(), Error>(Error::Disabled), cancel_outcome(regs).1),
{
    lemma_stopped_fields(regs);
}

/// Starting twice without a stop: once a start has succeeded, a second one is
/// refused with `Enabled` and the registers the first one wrote stay as they
/// are.
pub proof fn lemma_start_twice(clocks: Clocks, regs: TimerARegisters, c1: Count, c2: Count)
    requires
        start_outcome(clocks, regs, c1).0 is Ok,
    ensures
        start_outcome(clocks, start_outcome(clocks, regs, c1).1, c2) == (
            Err::<(), Error>(Error::Enabled),
            start_outcome(clocks, regs, c1).1,
        ),
{
    lemma_setup_prescaler(clocks, c1);
    lemma_programmed_fields(regs, count_setup(clocks, c1)->0);
}

/// A refused start leaves every register as it was.
pub proof fn lemma_refused_start_changes_nothing(clocks: Clocks, regs: TimerARegisters, count: Count)
    requires
        start_outcome(clocks, regs, count).0 is Err,
    ensures
        start_outcome(clocks, regs, count).1 == regs,
{
}

/// A Timer_A instance at a stage of its lifecycle.
pub struct TimerConfig<S: State> {
    clocks: Clocks,
    tim: TimerARegisters,
    _state: S,
}

/// Turns a register file into a timer that still needs its clocks.
pub trait TimerExt {
    type Output;

    fn constrain(self) -> Self::Output;
}

impl TimerExt for TimerARegisters {
    type Output = TimerConfig<ClockNotDefined>;

    fn constrain(self) -> (r: TimerConfig<ClockNotDefined>)
        ensures
            r.regs() == self,
            r.bound_clocks() == TimerConfig::<ClockNotDefined>::no_clocks(),
    {
        TimerConfig::new(self)
    }
}

impl<S: State> TimerConfig<S> {
    /// The register file.
    pub closed spec fn regs(&self) -> TimerARegisters {
        self.tim
    }

    /// The clock snapshot the timer computes with.
    pub closed spec fn bound_clocks(&self) -> Clocks {
        self.clocks
    }

    /// The register file, to mirror to the peripheral or to inspect.
    pub fn registers(&self) -> (r: TimerARegisters)
        ensures
            r == self.regs(),
    {
        self.tim
    }
}

impl TimerConfig<ClockNotDefined> {
    /// The snapshot of a timer that has none yet: every frequency zero.
    pub open spec fn no_clocks() -> Clocks {
        Clocks { aclk: Hertz(0), mclk: Hertz(0), hsmclk: Hertz(0), smclk: Hertz(0), bclk: Hertz(0) }
    }

    /// A timer over `timer` that has no clocks yet.
    pub fn new(timer: TimerARegisters) -> (r: TimerConfig<ClockNotDefined>)
        ensures
            r.regs() == timer,
            r.bound_clocks() == Self::no_clocks(),
    {
        let hz = Hertz(0);
        let clocks = Clocks { aclk: hz, mclk: hz, hsmclk: hz, smclk: hz, bclk: hz };
        TimerConfig { clocks, tim: timer, _state: ClockNotDefined }
    }

    /// Binds the clock snapshot, after which the timer can be started.
    pub fn set_clock(self, clock: Clocks) -> (r: TimerConfig<ClockDefined>)
        ensures
            r.regs() == self.regs(),
            r.bound_clocks() == clock,
    {
        TimerConfig { clocks: clock, tim: self.tim, _state: ClockDefined }
    }
}

impl TimerConfig<ClockDefined> {
    /// Replaces the clock snapshot; the registers are left as they are.
    pub fn update_clock(&mut self, clocks: Clocks) -> (r: &mut Self)
        ensures
            r.bound_clocks() == clocks,
            r.regs() == old(self).regs(),
            *final(self) == *final(r),
    {
        self.clocks = clocks;
        self
    }

    /// Sets the interrupt enable bit.
    pub fn enable_interrupt(&mut self) -> (r: &mut Self)
        ensures
            r.regs() == old(self).regs().with_ctl(with_field16(old(self).regs().ctl, TAIE, 1, 1)),
            r.bound_clocks() == old(self).bound_clocks(),
            *final(self) == *final(r),
    {
        self.tim.ctl = set_field16(self.tim.ctl, TAIE, 1, 1);
        self
    }

    /// Clears the interrupt enable bit.
    pub fn disable_interrupt(&mut self) -> (r: &mut Self)
        ensures
            r.regs() == old(self).regs().with_ctl(with_field16(old(self).regs().ctl, TAIE, 1, 0)),
            r.bound_clocks() == old(self).bound_clocks(),
            *final(self) == *final(r),
    {
        self.tim.ctl = set_field16(self.tim.ctl, TAIE, 1, 0);
        self
    }

    /// Whether the interrupt enable bit is set.
    pub fn interrupt_enabled(&self) -> (r: bool)
        ensures
            r == self.regs().interrupt_on(),
    {
        (self.tim.ctl >> TAIE) & 1 == 1
    }

    /// Clears the interrupt flag.
    pub fn clear_interrupt_pending_bit(&mut self) -> (r: &mut Self)
        ensures
            r.regs() == old(self).regs().with_ctl(with_field16(old(self).regs().ctl, TAIFG, 1, 0)),
            r.bound_clocks() == old(self).bound_clocks(),
            *final(self) == *final(r),
    {
        self.tim.ctl = set_field16(self.tim.ctl, TAIFG, 1, 0);
        self
    }

    /// Whether the interrupt flag is set.
    pub fn check_interrupt(&self) -> (r: bool)
        ensures
            r == self.regs().pending(),
    {
        (self.tim.ctl >> TAIFG) & 1 == 1
    }

    /// Takes the register values read back from the peripheral, whose
    /// counter and flags move on their own.
    pub fn refresh(&mut self, regs: TimerARegisters)
        ensures
            final(self).regs() == regs,
            final(self).bound_clocks() == old(self).bound_clocks(),
    {
        self.tim = regs;
    }

    fn stop_timer(&mut self)
        ensures
            final(self).regs() == stopped(old(self).regs()),
            final(self).bound_clocks() == old(self).bound_clocks(),
    {
        self.tim.ctl = set_field16(self.tim.ctl, MC, 3, MC_STOP);
    }

    fn timer_running(&self) -> (r: bool)
        ensures
            r == self.regs().running(),
    {
        (self.tim.ctl >> MC) & 3 != MC_STOP
    }

    /// Writes `setup` and starts the timer in up mode from a cleared counter.
    fn start_timer(&mut self, setup: CountSetup)
        requires
            is_prescaler(setup.prescaler as int),
        ensures
            final(self).regs() == programmed(old(self).regs(), setup),
            final(self).bound_clocks() == old(self).bound_clocks(),
    {
        proof {
            lemma_divider_fields(setup.prescaler as int);
        }
        let p = setup.prescaler;
        let (id, idex): (u16, u16) = if p <= 8 {
            (0, p as u16 - 1)
        } else if p <= 16 {
            (1, p as u16 / 2 - 1)
        } else if p <= 32 {
            (2, p as u16 / 4 - 1)
        } else {
            (3, p as u16 / 8 - 1)
        };
        let source: u16 = match setup.source {
            ClockSource::ExternalTxclk => 0,
            ClockSource::Aclk => 1,
            ClockSource::Smclk => 2,
            ClockSource::InvertedExternalTxclk => 3,
        };
        self.tim.r = 0;
        self.tim.ctl = set_field16(self.tim.ctl, TASSEL, 3, source);
        self.tim.ctl = set_field16(self.tim.ctl, ID, 3, id);
        self.tim.ex0 = idex;
        self.tim.ccr0 = setup.count;
        self.tim.ctl = set_field16(self.tim.ctl, MC, 3, MC_UP);
    }

    /// Starts periodic counting at the frequency or period `count`. A running
    /// timer is refused with `Enabled`; a request that no clock source,
    /// divisor and count reproduce is refused with `Unreachable`. A refused
    /// request changes nothing.
    pub fn try_start(&mut self, count: Count) -> (r: Result<(), Error>)
        ensures
            (r, final(self).regs()) == start_outcome(old(self).bound_clocks(), old(self).regs(), count),
            final(self).bound_clocks() == old(self).bound_clocks(),
    {
        if self.timer_running() {
            return Err(Error::Enabled);
        }
        match setup_timer(&self.clocks, count) {
            Some(setup) => {
                proof {
                    lemma_setup_prescaler(self.clocks, count);
                }
                self.start_timer(setup);
                Ok(())
            },
            None => Err(Error::Unreachable),
        }
    }

    /// Polls for an elapsed period: reports and clears the interrupt flag.
    pub fn try_wait(&mut self) -> (elapsed: bool)
        ensures
            (elapsed, final(self).regs()) == wait_outcome(old(self).regs()),
            final(self).bound_clocks() == old(self).bound_clocks(),
    {
        if self.check_interrupt() {
            self.clear_interrupt_pending_bit();
            true
        } else {
            false
        }
    }

    /// Stops the timer; a stopped timer is refused with `Disabled`.
    pub fn try_cancel(&mut self) -> (r: Result<(), Error>)
        ensures
            (r, final(self).regs()) == cancel_outcome(old(self).regs()),
            final(self).bound_clocks() == old(self).bound_clocks(),
    {
        if self.timer_running() {
            self.stop_timer();
            Ok(())
        } else {
            Err(Error::Disabled)
        }
    }
}

} // verus!
