use msp432p401r_hal::clock::Clocks;
use msp432p401r_hal::time::{
    Bps, Hertz, KiloHertz, MegaHertz, MilliSeconds, Seconds, TimeCount, TimerUnit, TimerUnits,
};

#[test]
fn unit_wrappers_keep_the_value() {
    assert_eq!(5u32.bps(), Bps(5));
    assert_eq!(5u32.hertz(), Hertz(5));
    assert_eq!(5u32.kilohertz(), KiloHertz(5));
    assert_eq!(5u32.megahertz(), MegaHertz(5));
    assert_eq!(5u32.milliseconds(), MilliSeconds(5));
    assert_eq!(5u32.seconds(), Seconds(5));
    assert_eq!(u32::from(Hertz(9)), 9);
    assert_eq!(Hertz::from(9u32), Hertz(9));
}

#[test]
fn scaling_conversions() {
    let ms: MilliSeconds = Seconds(3).into();
    assert_eq!(ms, MilliSeconds(3_000));
    let s: Seconds = MilliSeconds(3_999).into();
    assert_eq!(s, Seconds(3));
    let hz: Hertz = KiloHertz(48).into();
    assert_eq!(hz, Hertz(48_000));
    let hz: Hertz = MegaHertz(48).into();
    assert_eq!(hz, Hertz(48_000_000));
    let mhz: MegaHertz = Hertz(48_500_000).into();
    assert_eq!(mhz, MegaHertz(48));
    let khz: KiloHertz = MegaHertz(3).into();
    assert_eq!(khz, KiloHertz(3_000));
    let bps: Bps = Hertz(9_600).into();
    assert_eq!(bps, Bps(9_600));
}

#[test]
fn scaling_saturates() {
    let hz: Hertz = MegaHertz(5_000).into();
    assert_eq!(hz, Hertz(u32::MAX));
    let ms: MilliSeconds = Seconds(5_000_000).into();
    assert_eq!(ms, MilliSeconds(u32::MAX));
}

#[test]
fn time_count_conversions() {
    let c = TimeCount::from(MilliSeconds(250));
    assert_eq!(c, TimeCount { value: 250, unity: TimerUnits::Milliseconds });
    assert_eq!(Hertz::from(c), Hertz(4));
    assert_eq!(Seconds::from(TimeCount::from(MilliSeconds(2_500))), Seconds(2));
    assert_eq!(MilliSeconds::from(TimeCount::from(Seconds(2))), MilliSeconds(2_000));
    assert_eq!(MilliSeconds::from(TimeCount::from(Hertz(4))), MilliSeconds(250));
    assert_eq!(KiloHertz::from(TimeCount::from(MegaHertz(2))), KiloHertz(2_000));
    assert_eq!(MegaHertz::from(TimeCount::from(KiloHertz(2_500))), MegaHertz(2));
    assert_eq!(Bps::from(TimeCount::from(KiloHertz(2))), Bps(2_000));
}

#[test]
fn time_count_conversions_without_meaning_give_zero() {
    assert_eq!(Hertz::from(TimeCount::from(Seconds(1))), Hertz(0));
    assert_eq!(Hertz::from(TimeCount::from(MilliSeconds(0))), Hertz(0));
    assert_eq!(Seconds::from(TimeCount::from(Hertz(5))), Seconds(0));
    assert_eq!(KiloHertz::from(TimeCount::from(Seconds(5))), KiloHertz(0));
}

#[test]
fn period_and_frequency_units() {
    assert!(TimeCount::from(Seconds(1)).is_period());
    assert!(TimeCount::from(MilliSeconds(1)).is_period());
    assert!(!TimeCount::from(Hertz(1)).is_period());
    assert!(TimeCount::from(Bps(1)).is_frequency());
    assert!(TimeCount::from(MegaHertz(1)).is_frequency());
    assert!(!TimeCount::from(Seconds(1)).is_frequency());
}

#[test]
fn clock_getters() {
    let c = Clocks::new(Hertz(1), Hertz(2), Hertz(3), Hertz(4), Hertz(5));
    assert_eq!(c.aclk(), Hertz(1));
    assert_eq!(c.mclk(), Hertz(2));
    assert_eq!(c.hsmclk(), Hertz(3));
    assert_eq!(c.smclk(), Hertz(4));
    assert_eq!(c.bclk(), Hertz(5));
    assert_eq!(c.aux_clock(), Hertz(1));
    assert_eq!(c.master_clock(), Hertz(2));
    assert_eq!(c.subsystem_master_clock(), Hertz(3));
    assert_eq!(c.low_frequency_subsystem_master_clock(), Hertz(4));
    assert_eq!(c.backup_clock(), Hertz(5));
}
