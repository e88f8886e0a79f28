use msp432p401r_hal::clock::Clocks;
use msp432p401r_hal::common::Split;
use msp432p401r_hal::time::Hertz;
use msp432p401r_hal::timer::{
    Channel0, Channel1, ClockDefined, Count, Error, FreeRunning, OneShot, Timer32Block,
    Timer32Config, Timer32Ext, Timer32Registers, TimerUnit,
};

fn clocks(mclk: u32) -> Clocks {
    Clocks::new(Hertz(32_768), Hertz(mclk), Hertz(mclk), Hertz(mclk / 2), Hertz(32_768))
}

fn channels(mclk: u32) -> (Timer32Config<Channel0, ClockDefined>, Timer32Config<Channel1, ClockDefined>) {
    let block = Timer32Block { channel0: Timer32Registers::reset(), channel1: Timer32Registers::reset() };
    block.constrain().set_clock(clocks(mclk)).split()
}

fn prescaler(r: &Timer32Registers) -> u32 {
    match (r.control >> 2) & 3 {
        0 => 1,
        1 => 16,
        _ => 256,
    }
}

#[test]
fn periodic_ten_hertz_loads_mclk_over_ten() {
    let (mut t0, _t1) = channels(48_000_000);
    assert_eq!(t0.try_start(Count(10, TimerUnit::Hertz)), Ok(()));
    let r = t0.registers();
    assert_eq!(r.load, 4_800_000);
    assert_eq!(r.value, 4_800_000);
    assert_eq!(prescaler(&r), 1);
    assert_eq!(r.control, 0x20 | 0x80 | 0x40 | 0x02);
}

#[test]
fn oneshot_three_seconds_loads_three_seconds_of_mclk() {
    let (mut t0, _t1) = channels(48_000_000);
    assert_eq!(t0.try_start_oneshot(Count(3, TimerUnit::Seconds)), Ok(()));
    let r = t0.registers();
    assert_eq!(prescaler(&r), 1);
    assert_eq!(r.load, 144_000_000);
    assert_eq!(r.control, 0x20 | 0x80 | 0x40 | 0x02 | 0x01);
}

#[test]
fn oneshot_two_thousand_seconds_uses_prescaler_256() {
    let (mut t0, _t1) = channels(48_000_000);
    assert_eq!(t0.try_start_oneshot(Count(2_000, TimerUnit::Seconds)), Ok(()));
    let r = t0.registers();
    assert_eq!(prescaler(&r), 256);
    assert_eq!(r.load, 375_000_000);
    assert_eq!(r.control, 0x20 | 0x80 | 0x40 | 0x02 | 0x01 | 0x08);
}

#[test]
fn long_period_uses_prescaler_16() {
    let (mut t0, _t1) = channels(48_000_000);
    assert_eq!(t0.try_start(Count(1_000, TimerUnit::Seconds)), Ok(()));
    let r = t0.registers();
    assert_eq!(prescaler(&r), 16);
    assert_eq!(r.load, 3_000_000_000);
}

#[test]
fn frequency_is_reproduced_within_one_count_on_timer32() {
    let mclk = 48_000_000u32;
    for v in [1u32, 7, 10, 1_000, 65_537] {
        let (mut t0, _t1) = channels(mclk);
        assert_eq!(t0.try_start(Count(v, TimerUnit::Hertz)), Ok(()));
        let r = t0.registers();
        let d = prescaler(&r) as u64 * v as u64;
        assert_eq!(r.load as u64, mclk as u64 / d);
        assert!(d * r.load as u64 <= mclk as u64);
        assert!((mclk as u64) < d * (r.load as u64 + 1));
    }
}

#[test]
fn free_running_first_tick_is_max() {
    let (_t0, mut t1) = channels(48_000_000);
    assert_eq!(t1.try_start_freerunning(), Ok(()));
    assert_eq!(t1.get_ticks(), u32::MAX);
    assert_eq!(t1.get_ticks(), u32::MAX);
    let r = t1.registers();
    assert_eq!(r.load, u32::MAX);
    assert_eq!(r.control, 0x20 | 0x80 | 0x02);
}

#[test]
fn ticks_are_the_counter_read_back() {
    let (_t0, mut t1) = channels(48_000_000);
    assert_eq!(t1.try_start_freerunning(), Ok(()));
    let mut hw = t1.registers();
    hw.value = u32::MAX - 1_000;
    t1.refresh(hw);
    assert_eq!(t1.get_ticks(), u32::MAX - 1_000);
}

#[test]
fn channels_do_not_touch_each_other() {
    let (mut t0, mut t1) = channels(48_000_000);
    let (mut a0, _) = channels(48_000_000);
    let (_, mut b1) = channels(48_000_000);
    assert_eq!(t0.try_start_oneshot(Count(3, TimerUnit::Seconds)), Ok(()));
    assert_eq!(t1.try_start_freerunning(), Ok(()));
    assert_eq!(t0.try_wait(), false);
    t1.enable_interrupt();
    assert_eq!(a0.try_start_oneshot(Count(3, TimerUnit::Seconds)), Ok(()));
    assert_eq!(b1.try_start_freerunning(), Ok(()));
    b1.enable_interrupt();
    assert_eq!(t0.registers(), a0.registers());
    assert_eq!(t1.registers(), b1.registers());
    assert_eq!(t1.try_cancel(), Ok(()));
    assert_eq!(t0.registers(), a0.registers());
}

#[test]
fn second_cancel_is_disabled_on_timer32() {
    let (mut t0, _t1) = channels(48_000_000);
    assert_eq!(t0.try_cancel(), Err(Error::Disabled));
    assert_eq!(t0.try_start(Count(10, TimerUnit::Hertz)), Ok(()));
    assert_eq!(t0.try_cancel(), Ok(()));
    assert_eq!(t0.registers().control & 0x80, 0);
    assert_eq!(t0.try_cancel(), Err(Error::Disabled));
}

#[test]
fn second_start_is_enabled_on_timer32() {
    let (mut t0, _t1) = channels(48_000_000);
    assert_eq!(t0.try_start(Count(10, TimerUnit::Hertz)), Ok(()));
    let first = t0.registers();
    assert_eq!(t0.try_start(Count(20, TimerUnit::Hertz)), Err(Error::Enabled));
    assert_eq!(t0.try_start_oneshot(Count(1, TimerUnit::Seconds)), Err(Error::Enabled));
    assert_eq!(t0.try_start_freerunning(), Err(Error::Enabled));
    assert_eq!(t0.registers(), first);
}

#[test]
fn too_long_period_is_unreachable_on_timer32() {
    let (mut t0, _t1) = channels(48_000_000);
    let before = t0.registers();
    assert_eq!(t0.try_start(Count(30_000, TimerUnit::Seconds)), Err(Error::Unreachable));
    assert_eq!(t0.registers(), before);
    assert_eq!(t0.try_start(Count(0, TimerUnit::Hertz)), Err(Error::Unreachable));
    assert_eq!(t0.try_start(Count(5_000_000, TimerUnit::Seconds)), Err(Error::Unreachable));
    assert_eq!(t0.registers(), before);
}

#[test]
fn wait_reports_and_clears_the_raw_flag() {
    let (mut t0, _t1) = channels(48_000_000);
    assert_eq!(t0.try_start(Count(10, TimerUnit::Hertz)), Ok(()));
    assert!(!t0.try_wait());
    let mut hw = t0.registers();
    hw.ris = 1;
    t0.refresh(hw);
    assert!(t0.check_interrupt());
    assert!(t0.try_wait());
    assert_eq!(t0.registers().ris, 0);
    assert!(!t0.try_wait());
}

#[test]
fn masked_flag_needs_interrupt_enable() {
    let (mut t0, _t1) = channels(48_000_000);
    t0.disable_interrupt();
    assert!(!t0.interrupt_enabled());
    let mut hw = t0.registers();
    hw.ris = 1;
    t0.refresh(hw);
    assert!(!t0.check_interrupt());
    t0.enable_interrupt();
    assert!(t0.interrupt_enabled());
    assert!(t0.check_interrupt());
    t0.clear_interrupt_pending_bit();
    assert!(!t0.check_interrupt());
}

#[test]
fn update_clock_changes_later_requests_on_timer32() {
    let (mut t0, _t1) = channels(48_000_000);
    t0.update_clock(clocks(24_000_000));
    assert_eq!(t0.try_start(Count(10, TimerUnit::Hertz)), Ok(()));
    assert_eq!(t0.registers().load, 2_400_000);
}
