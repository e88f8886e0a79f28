//! Timer32: the 32-bit timer with two channels. Each channel counts MCLK,
//! divided by 1, 16 or 256, down from the value of its load register.
use vstd::prelude::*;

use crate::clock::Clocks;
use crate::common::Split;
use crate::register::{field32, lemma_disjoint_field32, lemma_with_field32, set_field32, with_field32};
use crate::time::Hertz;
use crate::timer::{
    normalize, normalized, ratio_of, tick_ratio, ClockDefined, ClockNotDefined, Count, Error,
    Normalized, State, TimerUnit,
};

verus! {

/// Largest divisor of the prescaler.
pub const MAX_PRESCALER32: u32 = 0x0100;

/// Source ticks that one interval must stay below: `MAX_PRESCALER32 * u32::MAX`.
pub const MAX_PERIOD32: u64 = 0xFF_FFFF_FF00;

/// Offset of ONESHOT in T32CONTROLx: the channel stops after one expiry.
pub const ONESHOT: u32 = 0;

/// Offset of SIZE in T32CONTROLx: the counter is 32 bits wide.
pub const SIZE: u32 = 1;

/// Offset of PRESCALE in T32CONTROLx: divide by 1, 16 or 256.
pub const PRESCALE: u32 = 2;

/// Offset of IE in T32CONTROLx: the interrupt is enabled.
pub const IE: u32 = 5;

/// Offset of MODE in T32CONTROLx: periodic (1) or free-running (0).
pub const MODE: u32 = 6;

/// Offset of ENABLE in T32CONTROLx: the channel counts.
pub const ENABLE: u32 = 7;

/// The register file of one channel: T32CONTROLx, T32LOADx, T32VALUEx and
/// T32RISx. Writing the load register also loads the counter.
#[derive(Clone, Copy, Debug, PartialEq, Eq, Structural)]
pub struct Timer32Registers {
    pub control: u32,
    pub load: u32,
    pub value: u32,
    pub ris: u32,
}

impl Timer32Registers {
    /// The register values after a reset.
    pub fn reset() -> (r: Timer32Registers)
        ensures
            r == (Timer32Registers { control: 0x20, load: 0, value: 0xFFFF_FFFF, ris: 0 }),
    {
        Timer32Registers { control: 0x20, load: 0, value: 0xFFFF_FFFF, ris: 0 }
    }

    /// Whether the channel counts.
    pub open spec fn running(self) -> bool {
        field32(self.control, ENABLE, 1) == 1
    }

    /// Whether the channel reloads its counter (periodic) or wraps (free-running).
    pub open spec fn periodic(self) -> bool {
        field32(self.control, MODE, 1) == 1
    }

    /// Whether the channel stops after one expiry.
    pub open spec fn oneshot(self) -> bool {
        field32(self.control, ONESHOT, 1) == 1
    }

    /// The divisor the prescale field selects.
    pub open spec fn divisor(self) -> int {
        prescaler_of_field(field32(self.control, PRESCALE, 3))
    }

    /// Whether the interrupt is enabled.
    pub open spec fn interrupt_on(self) -> bool {
        field32(self.control, IE, 1) == 1
    }

    /// Whether the counter has reached zero since the flag was last cleared.
    pub open spec fn pending(self) -> bool {
        self.ris & 1 == 1
    }

    /// The same registers with T32CONTROLx replaced.
    pub open spec fn with_control(self, control: u32) -> Timer32Registers {
        Timer32Registers { control, load: self.load, value: self.value, ris: self.ris }
    }
}

/// The register set of a whole Timer32: one per channel.
#[derive(Clone, Copy, Debug, PartialEq, Eq, Structural)]
pub struct Timer32Block {
    pub channel0: Timer32Registers,
    pub channel1: Timer32Registers,
}

/// The divisor that a prescale field value selects.
pub open spec fn prescaler_of_field(f: u32) -> int {
    if f == 0 {
        1
    } else if f == 1 {
        16
    } else {
        256
    }
}

/// The prescale field value that selects divisor `p`.
pub open spec fn field_of_prescaler(p: int) -> u32 {
    if p == 1 {
        0
    } else if p == 16 {
        1
    } else {
        2
    }
}

/// The least of the divisors 1, 16 and 256 that is at least `min`.
pub open spec fn least_prescaler32(min: int) -> int {
    if min <= 1 {
        1
    } else if min <= 16 {
        16
    } else {
        256
    }
}

/// The divisor from which a count of `ratio` ticks is reached: `ratio /
/// u32::MAX`, and one step above it for a period.
pub open spec fn min_divisor32(ratio: int, period: bool) -> int {
    if period {
        ratio / u32::MAX as int + 1
    } else {
        ratio / u32::MAX as int
    }
}

/// Divisor and load value that reproduce a request.
#[derive(Clone, Copy, Debug, PartialEq, Eq, Structural)]
pub struct LoadSetup {
    pub prescaler: u32,
    pub load: u32,
}

/// What a request programs, once brought to hertz or milliseconds; nothing
/// where its MCLK ticks reach `MAX_PERIOD32`, or for zero hertz.
pub open spec fn normalized_setup32(clocks: Clocks, n: Normalized) -> Option<LoadSetup> {
    if !n.period && n.value == 0 {
        None
    } else {
        let ratio = tick_ratio(clocks.mclk.0, n);
        if ratio < MAX_PERIOD32 {
            let p = least_prescaler32(min_divisor32(ratio, n.period));
            Some(LoadSetup { prescaler: p as u32, load: (ratio / p) as u32 })
        } else {
            None
        }
    }
}

/// What a request programs under `clocks`; `None` where it is unreachable.
pub open spec fn load_setup(clocks: Clocks, count: Count) -> Option<LoadSetup> {
    match normalized(count) {
        None => None,
        Some(n) => normalized_setup32(clocks, n),
    }
}

/// The divisor chosen for `ratio` ticks leaves a load value of 32 bits.
proof fn lemma_load_fits(ratio: int, n: Normalized, freq: u32)
    requires
        ratio == tick_ratio(freq, n),
        n.period || n.value > 0,
        0 <= ratio < MAX_PERIOD32,
    ensures
        ratio / least_prescaler32(min_divisor32(ratio, n.period)) <= u32::MAX,
{
    let m = u32::MAX as int;
    let p = least_prescaler32(min_divisor32(ratio, n.period));
    if n.period {
        let q = ratio / m;
        assert(q * m <= ratio < (q + 1) * m);
        assert(q + 1 <= p);
        assert(ratio <= p * m) by (nonlinear_arith)
            requires
                ratio < (q + 1) * m,
                q + 1 <= p,
                0 < m,
        ;
        assert(ratio / p <= m) by (nonlinear_arith)
            requires
                ratio <= p * m,
                0 < p,
        ;
    } else {
        assert(ratio <= freq) by (nonlinear_arith)
            requires
                ratio == freq as int / n.value as int,
                n.value > 0,
        ;
    }
}

/// What `count` programs under `clocks`; `None` where it is unreachable.
pub fn setup_timer32(clocks: &Clocks, count: Count) -> (r: Option<LoadSetup>)
    ensures
        r == load_setup(*clocks, count),
{
    let n = match normalize(count) {
        Some(n) => n,
        None => return None,
    };
    if !n.period && n.value == 0 {
        return None;
    }
    let count_ratio = ratio_of(clocks.mclk.0, n);
    if count_ratio >= MAX_PERIOD32 {
        return None;
    }
    let min_prescaler: u64 = if n.period {
        count_ratio / u32::MAX as u64 + 1
    } else {
        count_ratio / u32::MAX as u64
    };
    let prescaler: u32 = if min_prescaler <= 1 {
        1
    } else if min_prescaler <= 16 {
        16
    } else {
        256
    };
    proof {
        lemma_load_fits(count_ratio as int, n, clocks.mclk.0);
    }
    let load = (count_ratio / prescaler as u64) as u32;
    Some(LoadSetup { prescaler, load })
}

/// The control word of a started channel: enabled, 32 bits wide, periodic
/// or free-running, one-shot or not. Prescale and IE keep their values.
pub open spec fn started_control(control: u32, periodic: bool, oneshot: bool) -> u32 {
    let c = with_field32(control, ENABLE, 1, 1);
    let c = with_field32(c, MODE, 1, if periodic { 1 } else { 0 });
    let c = with_field32(c, SIZE, 1, 1);
    with_field32(c, ONESHOT, 1, if oneshot { 1 } else { 0 })
}

/// The registers once `setup` is written to `regs` and the channel is
/// started in periodic mode, stopping after one expiry if `oneshot`.
pub open spec fn programmed32(regs: Timer32Registers, setup: LoadSetup, oneshot: bool) -> Timer32Registers {
    let c = with_field32(regs.control, PRESCALE, 3, field_of_prescaler(setup.prescaler as int));
    Timer32Registers {
        control: started_control(c, true, oneshot),
        load: setup.load,
        value: setup.load,
        ris: regs.ris,
    }
}

/// The registers once the channel is started free-running from `u32::MAX`.
pub open spec fn free_running(regs: Timer32Registers) -> Timer32Registers {
    Timer32Registers {
        control: started_control(regs.control, false, false),
        load: u32::MAX,
        value: u32::MAX,
        ris: regs.ris,
    }
}

/// The registers once the channel is stopped.
pub open spec fn stopped32(regs: Timer32Registers) -> Timer32Registers {
    regs.with_control(with_field32(regs.control, ENABLE, 1, 0))
}

/// Result and registers of a start request on `regs` under `clocks`.
pub open spec fn start_outcome32(clocks: Clocks, regs: Timer32Registers, count: Count, oneshot: bool) -> (
    Result<(), Error>,
    Timer32Registers,
) {
    if regs.running() {
        (Err(Error::Enabled), regs)
    } else {
        match load_setup(clocks, count) {
            None => (Err(Error::Unreachable), regs),
            Some(setup) => (Ok(()), programmed32(regs, setup, oneshot)),
        }
    }
}

/// Result and registers of a free-running start on `regs`.
pub open spec fn free_running_outcome(regs: Timer32Registers) -> (Result<(), Error>, Timer32Registers) {
    if regs.running() {
        (Err(Error::Enabled), regs)
    } else {
        (Ok(()), free_running(regs))
    }
}

/// Result and registers of a stop request on `regs`.
pub open spec fn cancel_outcome32(regs: Timer32Registers) -> (Result<(), Error>, Timer32Registers) {
    if regs.running() {
        (Ok(()), stopped32(regs))
    } else {
        (Err(Error::Disabled), regs)
    }
}

/// Whether the counter has reached zero, and the registers after the poll:
/// the raw flag is cleared when it is seen.
pub open spec fn wait_outcome32(regs: Timer32Registers) -> (bool, Timer32Registers) {
    if regs.pending() {
        (true, Timer32Registers { control: regs.control, load: regs.load, value: regs.value, ris: 0 })
    } else {
        (false, regs)
    }
}

/// The fields of a started control word.
pub proof fn lemma_started_fields(c: u32, periodic: bool, oneshot: bool)
    ensures
        field32(started_control(c, periodic, oneshot), ENABLE, 1) == 1,
        field32(started_control(c, periodic, oneshot), MODE, 1) == (if periodic { 1u32 } else { 0u32 }),
        field32(started_control(c, periodic, oneshot), ONESHOT, 1) == (if oneshot { 1u32 } else { 0u32 }),
        field32(started_control(c, periodic, oneshot), PRESCALE, 3) == field32(c, PRESCALE, 3),
        field32(started_control(c, periodic, oneshot), IE, 1) == field32(c, IE, 1),
{
    let m: u32 = if periodic { 1 } else { 0 };
    let o: u32 = if oneshot { 1 } else { 0 };
    let c1 = with_field32(c, ENABLE, 1, 1);
    let c2 = with_field32(c1, MODE, 1, m);
    let c3 = with_field32(c2, SIZE, 1, 1);
    lemma_with_field32(c, ENABLE, 1, 1);
    lemma_with_field32(c1, MODE, 1, m);
    lemma_with_field32(c3, ONESHOT, 1, o);
    lemma_disjoint_field32(c1, MODE, 1, m, ENABLE, 1);
    lemma_disjoint_field32(c2, SIZE, 1, 1, ENABLE, 1);
    lemma_disjoint_field32(c3, ONESHOT, 1, o, ENABLE, 1);
    lemma_disjoint_field32(c2, SIZE, 1, 1, MODE, 1);
    lemma_disjoint_field32(c3, ONESHOT, 1, o, MODE, 1);
    lemma_disjoint_field32(c, ENABLE, 1, 1, PRESCALE, 3);
    lemma_disjoint_field32(c1, MODE, 1, m, PRESCALE, 3);
    lemma_disjoint_field32(c2, SIZE, 1, 1, PRESCALE, 3);
    lemma_disjoint_field32(c3, ONESHOT, 1, o, PRESCALE, 3);
    lemma_disjoint_field32(c, ENABLE, 1, 1, IE, 1);
    lemma_disjoint_field32(c1, MODE, 1, m, IE, 1);
    lemma_disjoint_field32(c2, SIZE, 1, 1, IE, 1);
    lemma_disjoint_field32(c3, ONESHOT, 1, o, IE, 1);
}

/// The fields of the registers that a setup programs.
pub proof fn lemma_programmed32_fields(regs: Timer32Registers, setup: LoadSetup, oneshot: bool)
    requires
        setup.prescaler == 1 || setup.prescaler == 16 || setup.prescaler == 256,
    ensures
        programmed32(regs, setup, oneshot).running(),
        programmed32(regs, setup, oneshot).periodic(),
        programmed32(regs, setup, oneshot).oneshot() == oneshot,
        programmed32(regs, setup, oneshot).divisor() == setup.prescaler as int,
        programmed32(regs, setup, oneshot).interrupt_on() == regs.interrupt_on(),
{
    let f = field_of_prescaler(setup.prescaler as int);
    let c = with_field32(regs.control, PRESCALE, 3, f);
    lemma_with_field32(regs.control, PRESCALE, 3, f);
    lemma_disjoint_field32(regs.control, PRESCALE, 3, f, IE, 1);
    lemma_started_fields(c, true, oneshot);
}

/// A stopped channel does not run; its other fields keep their values.
pub proof fn lemma_stopped32_fields(regs: Timer32Registers)
    ensures
        !stopped32(regs).running(),
        stopped32(regs).divisor() == regs.divisor(),
        stopped32(regs).load == regs.load,
{
    lemma_with_field32(regs.control, ENABLE, 1, 0);
    lemma_disjoint_field32(regs.control, ENABLE, 1, 0, PRESCALE, 3);
}

/// Frequency law: every request of `v` hertz is reachable, and the registers
/// it programs reproduce it. The load value is MCLK divided by divisor times
/// `v`, rounded down: divisor times load value times `v` is within one
/// divisor times `v` of MCLK.
pub proof fn lemma_frequency_reproduced32(clocks: Clocks, regs: Timer32Registers, v: u32, oneshot: bool)
    requires
        v > 0,
    ensures
        load_setup(clocks, Count(v, TimerUnit::Hertz)) is Some,
        ({
            let after = programmed32(regs, load_setup(clocks, Count(v, TimerUnit::Hertz))->0, oneshot);
            let f = clocks.mclk.0 as int;
            &&& after.running()
            &&& after.load == f / (after.divisor() * v)
            &&& after.divisor() * after.load * v <= f < after.divisor() * (after.load + 1) * v
        }),
{
    let f = clocks.mclk.0 as int;
    let w = v;
    let v = v as int;
    assert(f / v <= f) by (nonlinear_arith)
        requires
            v > 0,
            f >= 0,
    ;
    assert(f / v / u32::MAX as int <= 1);
    let setup = load_setup(clocks, Count(w, TimerUnit::Hertz))->0;
    assert(setup.prescaler == 1);
    assert(setup.load == f / v);
    lemma_programmed32_fields(regs, setup, oneshot);
    assert(1 * v == v);
    let q = f / v;
    assert(v * q <= f < v * (q + 1)) by (nonlinear_arith)
        requires
            q == f / v,
            0 < v,
    ;
}

/// Stopping twice: whatever the first stop returned, the second is refused
/// with `Disabled` and changes nothing.
pub proof fn lemma_cancel_twice32(regs: Timer32Registers)
    ensures
        cancel_outcome32(cancel_outcome32(regs).1) == (Err::<(), Error>(Error::Disabled), cancel_outcome32(regs).1),
{
    lemma_stopped32_fields(regs);
}

/// Starting twice without a stop, in periodic or one-shot mode: once a start
/// has succeeded, a second one is refused with `Enabled` and the registers
/// the first one wrote stay as they are.
pub proof fn lemma_start_twice32(clocks: Clocks, regs: Timer32Registers, c1: Count, c2: Count, first_oneshot: bool, second_oneshot: bool)
    requires
        start_outcome32(clocks, regs, c1, first_oneshot).0 is Ok,
    ensures
        start_outcome32(clocks, start_outcome32(clocks, regs, c1, first_oneshot).1, c2, second_oneshot) == (
            Err::<(), Error>(Error::Enabled),
            start_outcome32(clocks, regs, c1, first_oneshot).1,
        ),
{
    lemma_programmed32_fields(regs, load_setup(clocks, c1)->0, first_oneshot);
}

/// A refused start leaves every register as it was.
pub proof fn lemma_refused_start_changes_nothing32(clocks: Clocks, regs: Timer32Registers, count: Count, oneshot: bool)
    requires
        start_outcome32(clocks, regs, count, oneshot).0 is Err,
    ensures
        start_outcome32(clocks, regs, count, oneshot).1 == regs,
{
}

/// A free-running start loads `u32::MAX` into the load register and the
/// counter, so the first tick read is `u32::MAX`, and counts without reload.
pub proof fn lemma_free_running_fields(regs: Timer32Registers)
    requires
        !regs.running(),
    ensures
        free_running_outcome(regs).0 is Ok,
        free_running_outcome(regs).1.value == u32::MAX,
        free_running_outcome(regs).1.load == u32::MAX,
        free_running_outcome(regs).1.running(),
        !free_running_outcome(regs).1.periodic(),
        !free_running_outcome(regs).1.oneshot(),
{
    lemma_started_fields(regs.control, false, false);
}

/// A channel whose register set is owned by one handle.
pub trait Channel {
    spec fn regs(&self) -> Timer32Registers;

    fn registers(&self) -> (r: Timer32Registers)
        ensures
            r == self.regs(),
    ;

    fn set_registers(&mut self, regs: Timer32Registers)
        ensures
            final(self).regs() == regs,
    ;
}

/// No channel chosen yet: the register sets of both channels.
pub struct ChannelNotDefined {
    block: Timer32Block,
}

/// The register set of channel 0.
pub struct Channel0 {
    regs: Timer32Registers,
}

/// The register set of channel 1.
pub struct Channel1 {
    regs: Timer32Registers,
}

impl Channel for Channel0 {
    closed spec fn regs(&self) -> Timer32Registers {
        self.regs
    }

    fn registers(&self) -> (r: Timer32Registers) {
        self.regs
    }

    fn set_registers(&mut self, regs: Timer32Registers) {
        self.regs = regs;
    }
}

impl Channel for Channel1 {
    closed spec fn regs(&self) -> Timer32Registers {
        self.regs
    }

    fn registers(&self) -> (r: Timer32Registers) {
        self.regs
    }

    fn set_registers(&mut self, regs: Timer32Registers) {
        self.regs = regs;
    }
}

/// Starts a channel that counts to one expiry and then stops.
pub trait OneShot {
    type Error;

    type Time;

    fn try_start_oneshot(&mut self, count: Self::Time) -> Result<(), Self::Error>;
}

/// Starts a channel that counts down from its largest value and wraps, to
/// read elapsed ticks.
pub trait FreeRunning {
    type Error;

    fn try_start_freerunning(&mut self) -> Result<(), Self::Error>;
}

/// The Timer32, or one of its channels, at a stage of its lifecycle.
pub struct Timer32Config<C, S: State> {
    clocks: Clocks,
    tim: C,
    _state: S,
}

/// Turns the register sets of a Timer32 into a timer that still needs its clocks.
pub trait Timer32Ext {
    type Output;

    fn constrain(self) -> Self::Output;
}

impl Timer32Ext for Timer32Block {
    type Output = Timer32Config<ChannelNotDefined, ClockNotDefined>;

    fn constrain(self) -> (r: Timer32Config<ChannelNotDefined, ClockNotDefined>)
        ensures
            r.block() == self,
            r.bound_clocks() == Timer32Config::<ChannelNotDefined, ClockNotDefined>::no_clocks(),
    {
        Timer32Config::tim32(self)
    }
}

impl<C, S: State> Timer32Config<C, S> {
    /// The clock snapshot the timer computes with.
    pub closed spec fn bound_clocks(&self) -> Clocks {
        self.clocks
    }
}

impl<S: State> Timer32Config<ChannelNotDefined, S> {
    /// The register sets of both channels.
    pub closed spec fn block(&self) -> Timer32Block {
        self.tim.block
    }
}

impl Timer32Config<ChannelNotDefined, ClockNotDefined> {
    /// The snapshot of a timer that has none yet: every frequency zero.
    pub open spec fn no_clocks() -> Clocks {
        Clocks { aclk: Hertz(0), mclk: Hertz(0), hsmclk: Hertz(0), smclk: Hertz(0), bclk: Hertz(0) }
    }

    /// A Timer32 over `timer` that has no clocks yet.
    pub fn tim32(timer: Timer32Block) -> (r: Timer32Config<ChannelNotDefined, ClockNotDefined>)
        ensures
            r.block() == timer,
            r.bound_clocks() == Self::no_clocks(),
    {
        let hz = Hertz(0);
        let clocks = Clocks { aclk: hz, mclk: hz, hsmclk: hz, smclk: hz, bclk: hz };
        Timer32Config { clocks, tim: ChannelNotDefined { block: timer }, _state: ClockNotDefined }
    }

    /// Binds the clock snapshot, after which the channels can be taken apart.
    pub fn set_clock(self, clock: Clocks) -> (r: Timer32Config<ChannelNotDefined, ClockDefined>)
        ensures
            r.block() == self.block(),
            r.bound_clocks() == clock,
    {
        Timer32Config { clocks: clock, tim: self.tim, _state: ClockDefined }
    }
}

impl Split for Timer32Config<ChannelNotDefined, ClockDefined> {
    type Parts = (Timer32Config<Channel0, ClockDefined>, Timer32Config<Channel1, ClockDefined>);

    /// One handle per channel, each owning its channel's register set and a
    /// copy of the clock snapshot.
    fn split(self) -> (r: (Timer32Config<Channel0, ClockDefined>, Timer32Config<Channel1, ClockDefined>))
        ensures
            r.0.regs() == self.block().channel0,
            r.1.regs() == self.block().channel1,
            r.0.bound_clocks() == self.bound_clocks(),
            r.1.bound_clocks() == self.bound_clocks(),
    {
        let block = self.tim.block;
        (
            Timer32Config { clocks: self.clocks, tim: Channel0 { regs: block.channel0 }, _state: ClockDefined },
            Timer32Config { clocks: self.clocks, tim: Channel1 { regs: block.channel1 }, _state: ClockDefined },
        )
    }
}

impl<C: Channel> Timer32Config<C, ClockDefined> {
    /// The register set of the channel.
    pub closed spec fn regs(&self) -> Timer32Registers {
        self.tim.regs()
    }

    /// The register set, to mirror to the peripheral or to inspect.
    pub fn registers(&self) -> (r: Timer32Registers)
        ensures
            r == self.regs(),
    {
        self.tim.registers()
    }

    /// Takes the register values read back from the peripheral, whose
    /// counter and flag move on their own.
    pub fn refresh(&mut self, regs: Timer32Registers)
        ensures
            final(self).regs() == regs,
            final(self).bound_clocks() == old(self).bound_clocks(),
    {
        self.tim.set_registers(regs);
    }

    /// Replaces the clock snapshot; the registers are left as they are.
    pub fn update_clock(&mut self, clocks: Clocks) -> (r: &mut Self)
        ensures
            r.bound_clocks() == clocks,
            r.regs() == old(self).regs(),
            *final(self) == *final(r),
    {
        self.clocks = clocks;
        self
    }

    /// The counter value.
    pub fn get_ticks(&self) -> (r: u32)
        ensures
            r == self.regs().value,
    {
        self.tim.registers().value
    }

    /// Sets the interrupt enable bit.
    pub fn enable_interrupt(&mut self) -> (r: &mut Self)
        ensures
            r.regs() == old(self).regs().with_control(with_field32(old(self).regs().control, IE, 1, 1)),
            r.bound_clocks() == old(self).bound_clocks(),
            *final(self) == *final(r),
    {
        let mut regs = self.tim.registers();
        regs.control = set_field32(regs.control, IE, 1, 1);
        self.tim.set_registers(regs);
        self
    }

    /// Clears the interrupt enable bit.
    pub fn disable_interrupt(&mut self) -> (r: &mut Self)
        ensures
            r.regs() == old(self).regs().with_control(with_field32(old(self).regs().control, IE, 1, 0)),
            r.bound_clocks() == old(self).bound_clocks(),
            *final(self) == *final(r),
    {
        let mut regs = self.tim.registers();
        regs.control = set_field32(regs.control, IE, 1, 0);
        self.tim.set_registers(regs);
        self
    }

    /// Whether the interrupt enable bit is set.
    pub fn interrupt_enabled(&self) -> (r: bool)
        ensures
            r == self.regs().interrupt_on(),
    {
        (self.tim.registers().control >> IE) & 1 == 1
    }

    /// Clears the interrupt flag, as a write to T32INTCLRx does.
    pub fn clear_interrupt_pending_bit(&mut self) -> (r: &mut Self)
        ensures
            r.regs() == (Timer32Registers { ris: 0, ..old(self).regs() }),
            r.bound_clocks() == old(self).bound_clocks(),
            *final(self) == *final(r),
    {
        let mut regs = self.tim.registers();
        regs.ris = 0;
        self.tim.set_registers(regs);
        self
    }

    /// Whether the interrupt is enabled and its flag is set (T32MISx).
    pub fn check_interrupt(&self) -> (r: bool)
        ensures
            r == (self.regs().pending() && self.regs().interrupt_on()),
    {
        let regs = self.tim.registers();
        (regs.ris & 1 == 1) && ((regs.control >> IE) & 1 == 1)
    }

    fn timer_running(&self) -> (r: bool)
        ensures
            r == self.regs().running(),
    {
        (self.tim.registers().control >> ENABLE) & 1 == 1
    }

    fn stop_timer(&mut self)
        ensures
            final(self).regs() == stopped32(old(self).regs()),
            final(self).bound_clocks() == old(self).bound_clocks(),
    {
        let mut regs = self.tim.registers();
        regs.control = set_field32(regs.control, ENABLE, 1, 0);
        self.tim.set_registers(regs);
    }

    /// Enables the channel, 32 bits wide, in the given mode.
    fn start_mode(&mut self, periodic: bool, oneshot: bool)
        ensures
            final(self).regs() == old(self).regs().with_control(
                started_control(old(self).regs().control, periodic, oneshot),
            ),
            final(self).bound_clocks() == old(self).bound_clocks(),
    {
        let mut regs = self.tim.registers();
        let c = set_field32(regs.control, ENABLE, 1, 1);
        let c = set_field32(c, MODE, 1, if periodic { 1 } else { 0 });
        let c = set_field32(c, SIZE, 1, 1);
        regs.control = set_field32(c, ONESHOT, 1, if oneshot { 1 } else { 0 });
        self.tim.set_registers(regs);
    }

    /// Writes the prescale field and the load register, which also loads the counter.
    fn set_count(&mut self, setup: LoadSetup)
        ensures
            final(self).regs() == (Timer32Registers {
                control: with_field32(old(self).regs().control, PRESCALE, 3, field_of_prescaler(setup.prescaler as int)),
                load: setup.load,
                value: setup.load,
                ris: old(self).regs().ris,
            }),
            final(self).bound_clocks() == old(self).bound_clocks(),
    {
        let mut regs = self.tim.registers();
        let field: u32 = if setup.prescaler == 1 {
            0
        } else if setup.prescaler == 16 {
            1
        } else {
            2
        };
        regs.control = set_field32(regs.control, PRESCALE, 3, field);
        regs.load = setup.load;
        regs.value = setup.load;
        self.tim.set_registers(regs);
    }

    fn start_counting(&mut self, count: Count, oneshot: bool) -> (r: Result<(), Error>)
        ensures
            (r, final(self).regs()) == start_outcome32(old(self).bound_clocks(), old(self).regs(), count, oneshot),
            final(self).bound_clocks() == old(self).bound_clocks(),
    {
        if self.timer_running() {
            return Err(Error::Enabled);
        }
        match setup_timer32(&self.clocks, count) {
            Some(setup) => {
                self.set_count(setup);
                self.start_mode(true, oneshot);
                Ok(())
            },
            None => Err(Error::Unreachable),
        }
    }

    /// Starts periodic counting at the frequency or period `count`. A running
    /// channel is refused with `Enabled`; a request that no divisor and load
    /// value reproduce is refused with `Unreachable`. A refused request
    /// changes nothing.
    pub fn try_start(&mut self, count: Count) -> (r: Result<(), Error>)
        ensures
            (r, final(self).regs()) == start_outcome32(old(self).bound_clocks(), old(self).regs(), count, false),
            final(self).bound_clocks() == old(self).bound_clocks(),
    {
        self.start_counting(count, false)
    }

    /// Polls for an expiry: reports and clears the raw interrupt flag.
    pub fn try_wait(&mut self) -> (elapsed: bool)
        ensures
            (elapsed, final(self).regs()) == wait_outcome32(old(self).regs()),
            final(self).bound_clocks() == old(self).bound_clocks(),
    {
        if self.tim.registers().ris & 1 == 1 {
            let mut regs = self.tim.registers();
            regs.ris = 0;
            self.tim.set_registers(regs);
            true
        } else {
            false
        }
    }

    /// Stops the channel; a stopped channel is refused with `Disabled`.
    pub fn try_cancel(&mut self) -> (r: Result<(), Error>)
        ensures
            (r, final(self).regs()) == cancel_outcome32(old(self).regs()),
            final(self).bound_clocks() == old(self).bound_clocks(),
    {
        if self.timer_running() {
            self.stop_timer();
            Ok(())
        } else {
            Err(Error::Disabled)
        }
    }
}

impl<C: Channel> OneShot for Timer32Config<C, ClockDefined> {
    type Error = Error;

    type Time = Count;

    /// Starts counting to one expiry of `count`, after which the channel
    /// stops. Refused as [`Timer32Config::try_start`] is.
    fn try_start_oneshot(&mut self, count: Count) -> (r: Result<(), Error>)
        ensures
            (r, final(self).regs()) == start_outcome32(old(self).bound_clocks(), old(self).regs(), count, true),
            final(self).bound_clocks() == old(self).bound_clocks(),
    {
        self.start_counting(count, true)
    }
}

impl<C: Channel> FreeRunning for Timer32Config<C, ClockDefined> {
    type Error = Error;

    /// Loads `u32::MAX` and starts the channel free-running, without a
    /// target; a running channel is refused with `Enabled`.
    fn try_start_freerunning(&mut self) -> (r: Result<(), Error>)
        ensures
            (r, final(self).regs()) == free_running_outcome(old(self).regs()),
            final(self).bound_clocks() == old(self).bound_clocks(),
    {
        if self.timer_running() {
            return Err(Error::Enabled);
        }
        let mut regs = self.tim.registers();
        regs.load = u32::MAX;
        regs.value = u32::MAX;
        self.tim.set_registers(regs);
        self.start_mode(false, false);
        Ok(())
    }
}

} // verus!
