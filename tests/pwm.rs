use pwm_timer::{
    derive_timer_params, Clocks, Hertz, Pwm, PwmError, PwmExt, Tim2, TimerParams, C1, PA0, PA1,
    PA2, PA3,
};

fn clocks(hz: u32) -> Clocks {
    Clocks { pclk1: Hertz(hz) }
}

#[test]
fn derive_follows_formula_with_nonzero_prescaler() {
    let (clock, target) = (80_000_000u32, 1_000u32);
    let ticks = clock / target;
    assert_eq!(ticks, 80_000);
    let psc = ticks / 65536;
    let arr = ticks / (psc + 1);
    assert_eq!(psc, 1);
    assert_eq!(arr, 40_000);
    assert_eq!(
        derive_timer_params(clock, target),
        Ok(TimerParams { psc: psc as u16, arr: arr as u16 })
    );
}

#[test]
fn derive_zero_prescaler() {
    assert_eq!(derive_timer_params(8_000_000, 1_000), Ok(TimerParams { psc: 0, arr: 8_000 }));
}

#[test]
fn derive_period_brackets_ticks() {
    for &(clock, target) in &[(80_000_000u32, 1_000u32), (72_000_000, 50), (16_000_000, 3), (u32::MAX, 1)] {
        let p = derive_timer_params(clock, target).unwrap();
        let ticks = (clock / target) as u64;
        let (psc, arr) = (p.psc as u64, p.arr as u64);
        let period = (psc + 1) * (arr + 1);
        assert!((psc + 1) * arr <= ticks);
        assert!(ticks < period);
        assert!(period <= ticks + psc + 1);
    }
}

#[test]
fn derive_largest_clock() {
    assert_eq!(derive_timer_params(u32::MAX, 1), Ok(TimerParams { psc: 65535, arr: 65535 }));
}

#[test]
fn derive_equal_clock_and_target() {
    assert_eq!(derive_timer_params(1_000, 1_000), Ok(TimerParams { psc: 0, arr: 1 }));
}

#[test]
fn derive_rejects_zero_target() {
    assert_eq!(derive_timer_params(80_000_000, 0), Err(PwmError::FrequencyOutOfRange));
}

#[test]
fn derive_rejects_target_above_clock() {
    assert_eq!(derive_timer_params(1_000, 1_001), Err(PwmError::FrequencyOutOfRange));
}

#[test]
fn pwm_programs_registers_for_all_four_channels() {
    let pins = (PA0, PA1, PA2, PA3);
    let (tim, _channels) = Tim2::new().pwm(pins, Hertz(1_000), clocks(80_000_000)).unwrap();
    let r = tim.registers();
    assert_eq!(r.cr1, 1);
    assert_eq!(r.psc, 1);
    assert_eq!(r.arr, 40_000);
    assert_eq!(r.ccmr1, 0x6868);
    assert_eq!(r.ccmr2, 0x6868);
    assert_eq!(r.ccer, 0);
}

#[test]
fn pwm_programs_only_wired_channels() {
    let (tim, _c1) = Tim2::new().pwm(PA0, Hertz(1_000), clocks(8_000_000)).unwrap();
    let r = tim.registers();
    assert_eq!(r.ccmr1, 0x68);
    assert_eq!(r.ccmr2, 0);
    assert_eq!(r.arr, 8_000);
}

#[test]
fn pwm_rejects_unreachable_frequency() {
    assert!(matches!(
        Tim2::new().pwm(PA0, Hertz(0), clocks(8_000_000)),
        Err(PwmError::FrequencyOutOfRange)
    ));
    assert!(matches!(
        Tim2::new().pwm(PA0, Hertz(9_000_000), clocks(8_000_000)),
        Err(PwmError::FrequencyOutOfRange)
    ));
}

#[test]
fn single_pin_yields_single_handle() {
    let (mut tim, ch) = Tim2::new().pwm(PA0, Hertz(1_000), clocks(8_000_000)).unwrap();
    let mut ch: Pwm<Tim2, C1> = ch;
    ch.set_duty(&mut tim, 1_234);
    assert_eq!(ch.get_duty(&tim), 1_234);
}

#[test]
fn duty_round_trip() {
    let (mut tim, (mut c1, _, _, mut c4)) =
        Tim2::new().pwm((PA0, PA1, PA2, PA3), Hertz(1_000), clocks(80_000_000)).unwrap();
    assert_eq!(c1.get_duty(&tim), 0);
    for v in [0u16, 1, 20_000, 40_000, 65_535] {
        c1.set_duty(&mut tim, v);
        assert_eq!(c1.get_duty(&tim), v);
        c4.set_duty(&mut tim, v);
        assert_eq!(c4.get_duty(&tim), v);
    }
    assert_eq!(tim.registers().ccr4, 65_535);
}

#[test]
fn duty_above_max_is_not_clamped() {
    let (mut tim, mut c1) = Tim2::new().pwm(PA0, Hertz(1_000), clocks(8_000_000)).unwrap();
    assert_eq!(c1.get_max_duty(&tim), 8_000);
    c1.set_duty(&mut tim, 9_000);
    assert_eq!(c1.get_duty(&tim), 9_000);
}

#[test]
fn three_channels_are_independent() {
    let (mut tim, (mut a, mut b, mut c)) =
        Tim2::new().pwm((PA1, PA2, PA3), Hertz(500), clocks(16_000_000)).unwrap();
    a.set_duty(&mut tim, 100);
    b.set_duty(&mut tim, 200);
    c.set_duty(&mut tim, 300);
    assert_eq!(a.get_duty(&tim), 100);
    assert_eq!(b.get_duty(&tim), 200);
    assert_eq!(c.get_duty(&tim), 300);
    b.set_duty(&mut tim, 7);
    assert_eq!(a.get_duty(&tim), 100);
    assert_eq!(b.get_duty(&tim), 7);
    assert_eq!(c.get_duty(&tim), 300);
}

#[test]
fn max_duty_is_shared_reload() {
    let (tim, (c1, c2, c3, c4)) =
        Tim2::new().pwm((PA0, PA1, PA2, PA3), Hertz(50), clocks(72_000_000)).unwrap();
    let p = derive_timer_params(72_000_000, 50).unwrap();
    assert_eq!(c1.get_max_duty(&tim), p.arr);
    assert_eq!(c2.get_max_duty(&tim), p.arr);
    assert_eq!(c3.get_max_duty(&tim), p.arr);
    assert_eq!(c4.get_max_duty(&tim), p.arr);
}

#[test]
fn enable_then_disable_sibling_keeps_enable_bit() {
    let (mut tim, (mut c1, mut c2, _, mut c4)) =
        Tim2::new().pwm((PA0, PA1, PA2, PA3), Hertz(1_000), clocks(80_000_000)).unwrap();
    c1.enable(&mut tim);
    assert_eq!(tim.registers().ccer, 0x1);
    c2.disable(&mut tim);
    assert_eq!(tim.registers().ccer, 0x1);
    c4.enable(&mut tim);
    assert_eq!(tim.registers().ccer, 0x1001);
    c2.enable(&mut tim);
    c2.enable(&mut tim);
    assert_eq!(tim.registers().ccer, 0x1011);
    c1.disable(&mut tim);
    c1.disable(&mut tim);
    assert_eq!(tim.registers().ccer, 0x1010);
}
