use msp432p401r_hal::clock::Clocks;
use msp432p401r_hal::time::Hertz;
use msp432p401r_hal::timer::{
    ClockDefined, Count, Error, TimerARegisters, TimerConfig, TimerExt, TimerUnit,
};

fn clocks(aclk: u32, smclk: u32) -> Clocks {
    Clocks::new(Hertz(aclk), Hertz(48_000_000), Hertz(48_000_000), Hertz(smclk), Hertz(aclk))
}

fn timer(aclk: u32, smclk: u32) -> TimerConfig<ClockDefined> {
    TimerARegisters::reset().constrain().set_clock(clocks(aclk, smclk))
}

fn tassel(r: &TimerARegisters) -> u16 {
    (r.ctl >> 8) & 3
}

fn id(r: &TimerARegisters) -> u16 {
    (r.ctl >> 6) & 3
}

fn mc(r: &TimerARegisters) -> u16 {
    (r.ctl >> 4) & 3
}

fn divisor(r: &TimerARegisters) -> u32 {
    (1u32 << id(r)) * ((r.ex0 & 7) as u32 + 1)
}

#[test]
fn ten_hertz_from_smclk_uses_divisor_40() {
    let mut t = timer(32_768, 24_000_000);
    assert_eq!(t.try_start(Count(10, TimerUnit::Hertz)), Ok(()));
    let r = t.registers();
    assert_eq!(tassel(&r), 2);
    assert_eq!(divisor(&r), 40);
    assert_eq!(id(&r), 3);
    assert_eq!(r.ex0, 4);
    assert_eq!(r.ccr0, 60_000);
    assert_eq!(mc(&r), 1);
    assert_eq!(r.r, 0);
}

#[test]
fn unreachable_request_leaves_registers_as_they_were() {
    let mut t = timer(32_768, 0);
    let before = t.registers();
    assert_eq!(t.try_start(Count(1, TimerUnit::Hertz)), Err(Error::Unreachable));
    assert_eq!(t.registers(), before);
}

#[test]
fn period_beyond_both_sources_is_unreachable() {
    let mut t = timer(32_768, 24_000_000);
    t.enable_interrupt();
    let before = t.registers();
    assert_eq!(t.try_start(Count(200, TimerUnit::Seconds)), Err(Error::Unreachable));
    assert_eq!(t.registers(), before);
}

#[test]
fn zero_hertz_and_zero_period_are_unreachable() {
    let mut t = timer(32_768, 24_000_000);
    assert_eq!(t.try_start(Count(0, TimerUnit::Hertz)), Err(Error::Unreachable));
    assert_eq!(t.try_start(Count(0, TimerUnit::Milliseconds)), Err(Error::Unreachable));
}

#[test]
fn frequency_above_smclk_is_unreachable() {
    let mut t = timer(32_768, 24_000_000);
    assert_eq!(t.try_start(Count(30_000_000, TimerUnit::Hertz)), Err(Error::Unreachable));
}

#[test]
fn kilohertz_that_overflows_hertz_is_unreachable() {
    let mut t = timer(32_768, 24_000_000);
    assert_eq!(t.try_start(Count(5_000_000, TimerUnit::Kilohertz)), Err(Error::Unreachable));
}

#[test]
fn second_cancel_is_disabled() {
    let mut t = timer(32_768, 24_000_000);
    assert_eq!(t.try_start(Count(10, TimerUnit::Hertz)), Ok(()));
    assert_eq!(t.try_cancel(), Ok(()));
    assert_eq!(mc(&t.registers()), 0);
    let stopped = t.registers();
    assert_eq!(t.try_cancel(), Err(Error::Disabled));
    assert_eq!(t.registers(), stopped);
}

#[test]
fn cancel_of_a_fresh_timer_is_disabled() {
    let mut t = timer(32_768, 24_000_000);
    assert_eq!(t.try_cancel(), Err(Error::Disabled));
}

#[test]
fn second_start_is_enabled_and_keeps_registers() {
    let mut t = timer(32_768, 24_000_000);
    assert_eq!(t.try_start(Count(10, TimerUnit::Hertz)), Ok(()));
    let first = t.registers();
    assert_eq!(t.try_start(Count(100, TimerUnit::Hertz)), Err(Error::Enabled));
    assert_eq!(t.registers(), first);
    assert_eq!(t.registers().ccr0, 60_000);
}

#[test]
fn restart_after_cancel_programs_the_new_request() {
    let mut t = timer(32_768, 24_000_000);
    assert_eq!(t.try_start(Count(10, TimerUnit::Hertz)), Ok(()));
    assert_eq!(t.try_cancel(), Ok(()));
    assert_eq!(t.try_start(Count(300, TimerUnit::Hertz)), Ok(()));
    let r = t.registers();
    assert_eq!(divisor(&r), 2);
    assert_eq!(r.ccr0, 40_000);
}

#[test]
fn frequency_is_reproduced_within_one_count() {
    let smclk = 24_000_000u32;
    for v in [7u32, 10, 300, 1_000, 12_345, 100_000] {
        let mut t = timer(32_768, smclk);
        assert_eq!(t.try_start(Count(v, TimerUnit::Hertz)), Ok(()));
        let r = t.registers();
        assert_eq!(tassel(&r), 2);
        let d = divisor(&r) as u64 * v as u64;
        assert_eq!(r.ccr0 as u64, smclk as u64 / d);
        assert!(d * r.ccr0 as u64 <= smclk as u64);
        assert!((smclk as u64) < d * (r.ccr0 as u64 + 1));
    }
}

#[test]
fn seven_hertz_uses_divisor_56() {
    let mut t = timer(32_768, 24_000_000);
    assert_eq!(t.try_start(Count(7, TimerUnit::Hertz)), Ok(()));
    let r = t.registers();
    assert_eq!(divisor(&r), 56);
    assert_eq!(r.ccr0, 61_224);
}

#[test]
fn largest_window_uses_divisor_64() {
    let mut t = timer(32_768, 4_194_239);
    assert_eq!(t.try_start(Count(1, TimerUnit::Hertz)), Ok(()));
    let r = t.registers();
    assert_eq!(tassel(&r), 2);
    assert_eq!(divisor(&r), 64);
    assert_eq!(r.ccr0, 65_534);
}

#[test]
fn slow_frequency_falls_back_to_aclk() {
    let mut t = timer(32_768, 24_000_000);
    assert_eq!(t.try_start(Count(1, TimerUnit::Hertz)), Ok(()));
    let r = t.registers();
    assert_eq!(tassel(&r), 1);
    assert_eq!(divisor(&r), 1);
    assert_eq!(r.ccr0, 32_768);
}

#[test]
fn one_second_period_counts_aclk() {
    let mut t = timer(32_768, 24_000_000);
    assert_eq!(t.try_start(Count(1, TimerUnit::Seconds)), Ok(()));
    let r = t.registers();
    assert_eq!(tassel(&r), 1);
    assert_eq!(divisor(&r), 1);
    assert_eq!(r.ccr0, 32_768);
}

#[test]
fn hundred_milliseconds_takes_one_step_above_the_minimal_divisor() {
    let mut t = timer(32_768, 24_000_000);
    assert_eq!(t.try_start(Count(100, TimerUnit::Milliseconds)), Ok(()));
    let r = t.registers();
    assert_eq!(tassel(&r), 2);
    assert_eq!(divisor(&r), 40);
    assert_eq!(r.ccr0, 60_000);
}

#[test]
fn one_kilohertz_is_a_thousand_hertz() {
    let mut t = timer(32_768, 24_000_000);
    assert_eq!(t.try_start(Count(1, TimerUnit::Kilohertz)), Ok(()));
    let r = t.registers();
    assert_eq!(divisor(&r), 1);
    assert_eq!(r.ccr0, 24_000);
}

#[test]
fn interrupt_enable_survives_start_and_cancel() {
    let mut t = timer(32_768, 24_000_000);
    t.enable_interrupt();
    assert!(t.interrupt_enabled());
    assert_eq!(t.registers().ctl & 2, 2);
    assert_eq!(t.try_start(Count(10, TimerUnit::Hertz)), Ok(()));
    assert!(t.interrupt_enabled());
    assert_eq!(t.try_cancel(), Ok(()));
    assert!(t.interrupt_enabled());
    t.disable_interrupt();
    assert!(!t.interrupt_enabled());
}

#[test]
fn wait_reports_and_clears_the_flag() {
    let mut t = timer(32_768, 24_000_000);
    assert_eq!(t.try_start(Count(10, TimerUnit::Hertz)), Ok(()));
    assert!(!t.try_wait());
    let mut hw = t.registers();
    hw.ctl |= 1;
    hw.r = 17;
    t.refresh(hw);
    assert!(t.check_interrupt());
    assert!(t.try_wait());
    assert!(!t.check_interrupt());
    assert_eq!(t.registers().ctl & 1, 0);
    assert!(!t.try_wait());
}

#[test]
fn clear_interrupt_pending_bit_clears_only_the_flag() {
    let mut t = timer(32_768, 24_000_000);
    let mut hw = t.registers();
    hw.ctl |= 3;
    t.refresh(hw);
    t.clear_interrupt_pending_bit();
    assert_eq!(t.registers().ctl, hw.ctl & !1);
}

#[test]
fn update_clock_changes_later_requests() {
    let mut t = timer(32_768, 24_000_000);
    t.update_clock(clocks(32_768, 12_000_000));
    assert_eq!(t.try_start(Count(10, TimerUnit::Hertz)), Ok(()));
    let r = t.registers();
    assert_eq!(divisor(&r), 20);
    assert_eq!(r.ccr0, 60_000);
}

#[test]
fn reserved_control_bits_are_kept() {
    let mut t = TimerConfig::new(TimerARegisters { ctl: 0x8008, r: 5, ccr0: 9, ex0: 0 })
        .set_clock(clocks(32_768, 24_000_000));
    assert_eq!(t.try_start(Count(10, TimerUnit::Hertz)), Ok(()));
    assert_eq!(t.registers().ctl, 0x8008 | (2 << 8) | (3 << 6) | (1 << 4));
}

#[test]
fn value_times_aclk_overflowing_is_unreachable() {
    let mut t = timer(32_768, 24_000_000);
    let before = t.registers();
    assert_eq!(t.try_start(Count(200_000, TimerUnit::Hertz)), Err(Error::Unreachable));
    assert_eq!(t.registers(), before);
    let mut t = timer(32_768, 1_000);
    assert_eq!(t.try_start(Count(140_000, TimerUnit::Milliseconds)), Err(Error::Unreachable));
    assert_eq!(t.registers(), before);
}

#[test]
fn minimal_divisor_is_rounded_down() {
    let mut t = timer(32_768, 131_071);
    assert_eq!(t.try_start(Count(1, TimerUnit::Hertz)), Ok(()));
    let r = t.registers();
    assert_eq!(tassel(&r), 2);
    assert_eq!(divisor(&r), 2);
    assert_eq!(r.ccr0, 65_535);
}

#[test]
fn divisor_steps_up_when_the_count_would_not_fit() {
    let mut t = timer(32_768, 100_000);
    assert_eq!(t.try_start(Count(1, TimerUnit::Hertz)), Ok(()));
    let r = t.registers();
    assert_eq!(divisor(&r), 2);
    assert_eq!(r.ccr0, 50_000);
}
