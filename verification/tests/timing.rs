use hpm_probe::clock::Clocks;
use hpm_probe::delay::{delay_ticks_from_last_step, delay_ticks_step, Delay};
use hpm_probe::gpio::{Pin, PinState, Pins, Pull};

#[test]
fn microsecond_waits_scale_with_the_base_clock() {
    let mut d = Delay::new();
    assert_eq!(d.base_clock, 0);
    let clocks = Clocks::new(1, 2, 3, 4, 24_000_000);
    d.set_base_clock(&clocks);
    assert_eq!(d.base_clock, 24_000_000);
    // 1000 us at 24 MHz is 24000 ticks.
    assert_eq!(d.delay_us(1000), 24_000);
    assert_eq!(d.delay_us(1), 24);
    assert_eq!(d.delay_us(0), 0);
    // One period of 1.5 MHz is 16 ticks of the 24 MHz timer.
    assert_eq!(d.calc_period_ticks(1_500_000), 16);
}

#[test]
fn tick_wait_steps_account_for_counter_wrap() {
    // Enough time has passed: done, remaining count untouched.
    let (done, rem, last) = delay_ticks_step(10, 100, 115);
    assert!(done);
    assert_eq!(rem, 10);
    assert_eq!(last, 100);

    // Not enough: the wait shrinks by the delta and the sample advances.
    let (done, rem, last) = delay_ticks_step(10, 100, 104);
    assert!(!done);
    assert_eq!(rem, 6);
    assert_eq!(last, 104);

    // The counter wrapped between samples: the delta is taken modulo 2^32,
    // so from 0xFFFF_FFFE to 2 exactly four ticks have passed.
    let (done, rem, last) = delay_ticks_step(4, 0xFFFF_FFFE, 2);
    assert!(done);
    assert_eq!(rem, 4);
    assert_eq!(last, 0xFFFF_FFFE);
    let (done, rem, _) = delay_ticks_step(10, 0xFFFF_FFFE, 1);
    assert!(!done);
    assert_eq!(rem, 7);
}

#[test]
fn caller_sample_wait_measures_the_opposite_direction() {
    let (done, rem, now) = delay_ticks_from_last_step(5, 200, 190);
    assert!(done);
    assert_eq!(rem, 5);
    assert_eq!(now, 190);
    let (done, rem, now) = delay_ticks_from_last_step(5, 200, 198);
    assert!(!done);
    assert_eq!(rem, 3);
    assert_eq!(now, 198);
}

#[test]
fn pin_levels_and_modes() {
    let mut p = Pin::new();
    assert!(!p.output_enable);
    assert!(p.is_low());
    p.set_mode_output();
    p.set_state(PinState::High);
    assert!(p.is_high());
    assert!(matches!(p.get_sate(), PinState::High));
    p.toggle();
    assert!(p.is_low());
    p.toggle();
    assert!(p.is_high());
    assert_eq!(p.level_log, vec![true, false, true]);
    p.set_pull_up();
    assert!(matches!(p.pull, Pull::PullUp));
    p.set_open_drain();
    assert!(p.open_drain);
    p.set_push_pull();
    assert!(!p.open_drain);
    p.set_af(5);
    assert_eq!(p.alt, 5);
}

#[test]
fn high_impedance_mode_releases_every_debug_line() {
    let mut pins = Pins::new();
    pins.setup();
    pins.spi1_clk.set_mode_output();
    pins.spi2_io.set_pull_up();
    pins.high_impedance_mode();
    for p in [&pins.spi1_clk, &pins.spi1_io, &pins.spi2_clk, &pins.spi2_io] {
        assert!(!p.output_enable);
        assert!(matches!(p.pull, Pull::Floating));
    }
    // The indicators keep their configuration.
    assert!(pins.led_r.output_enable && pins.led_r.level);
}

#[test]
fn clock_tree_getters() {
    let c = Clocks::new(1, 2, 3, 4, 5);
    assert_eq!(c.get_clk_spi1_freq(), 1);
    assert_eq!(c.get_clk_spi2_freq(), 2);
    assert_eq!(c.get_clk_uart0_freq(), 3);
    assert_eq!(c.get_clk_uart9_freq(), 4);
    assert_eq!(c.get_clk_mchtmr0_freq(), 5);
}
