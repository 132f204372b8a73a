use hpm_probe::delay::Delay;
use hpm_probe::dma::DMA;
use hpm_probe::gpio::{Pins, ALT_FUNC_GPIO, ALT_FUNC_SPI};
use hpm_probe::spi::{SPIPrescaler, Spi};

#[test]
fn mode_setup_programs_the_shared_peripheral() {
    let mut swd: Spi<1> = Spi::new();
    swd.base_clock = 48_000_000;
    swd.setup_swd();
    // 48 MHz / 1.5 MHz / 2 - 1.
    assert_eq!(swd.timing.sclk_div, 15);
    assert_eq!(swd.timing.csht, 11);
    assert_eq!(swd.timing.cs2sclk, 3);
    // 8-bit LSB-first master frames, clock idling high for SWD.
    assert_eq!(swd.format.data_len, 7);
    assert!(swd.format.lsb_first && swd.format.master && swd.format.mosi_unidir);
    assert!(swd.format.cpol_high && swd.format.cpha_odd);
    assert!(!swd.tx_dma_en && !swd.rx_dma_en);

    let mut jtag: Spi<2> = Spi::new();
    jtag.base_clock = 48_000_000;
    jtag.setup_jtag();
    // Same framing, clock idling low, DMA request lines on.
    assert!(!jtag.format.cpol_high && jtag.format.cpha_odd);
    assert!(jtag.tx_dma_en && jtag.rx_dma_en);
}

#[test]
fn prescaler_picks_the_smallest_slow_enough_divider() {
    let mut s: Spi<1> = Spi::new();
    s.base_clock = 48_000_000;
    // 2 MHz requested: /4, /8 and /16 overshoot; /32 gives 1.5 MHz.
    assert_eq!(s.calculate_prescaler(2_000_000), Some(SPIPrescaler::Div16));
    // The rule picks the class exactly: 3 MHz is reached by /16 on the nose.
    assert_eq!(s.calculate_prescaler(3_000_000), Some(SPIPrescaler::Div8));
    // A ceiling at or above base/4 selects the fastest divider.
    assert_eq!(s.calculate_prescaler(12_000_000), Some(SPIPrescaler::Div2));
    // Even /512 is too fast below 93750 Hz.
    assert_eq!(s.calculate_prescaler(93_750), Some(SPIPrescaler::Div256));
    assert_eq!(s.calculate_prescaler(93_749), None);
    // Unknown base clock: no selection.
    s.base_clock = 0;
    assert_eq!(s.calculate_prescaler(2_000_000), None);
    assert_eq!(SPIPrescaler::Div16.divisor(), 32);
    assert_eq!(SPIPrescaler::Div16.code(), 3);
}

#[test]
fn short_exchanges_log_their_frames() {
    let mut s: Spi<1> = Spi::new();
    s.bus_word_received(0xA5);
    s.tx4(0x0B);
    assert_eq!(s.format.data_len, 3);
    assert_eq!(s.tx_log, vec![0x0B]);

    s.tx8(0x3C);
    assert_eq!(s.format.data_len, 7);
    s.tx16(0x1234);
    assert_eq!(s.format.data_len, 15);
    assert_eq!(s.tx_log, vec![0x0B, 0x3C, 0x1234]);

    // Each transmitted word echoed one received word; rx4 drains one.
    let got = s.rx4();
    assert_eq!(got, 0xA5);
    assert_eq!(s.tx_log, vec![0x0B, 0x3C, 0x1234, 0]);

    s.bus_word_received(0x15);
    assert_eq!(s.rx5(), 0x15);
    assert_eq!(s.format.data_len, 4);
}

#[test]
fn wdata_phase_byte_sequence_and_drain() {
    // data 0x12345678 with parity 1: the wire sees 0x78, 0x56, 0x34, 0x12,
    // then the parity word 0x01 (its upper seven bits are idle padding), and
    // all five echoed words are discarded.
    let mut s: Spi<1> = Spi::new();
    for _ in 0..5 {
        s.bus_word_received(0xFF);
    }
    s.swd_wdata_phase(0x12345678, 1);
    assert_eq!(s.tx_log, vec![0x78, 0x56, 0x34, 0x12, 0x01]);
    assert_eq!(s.rx_fifo.len(), 0);
    assert_eq!(s.transctrl.wr_tran_cnt, 4);
    assert_eq!(s.transctrl.rd_tran_cnt, 4);
}

#[test]
fn wdata_phase_masks_the_parity_to_one_bit() {
    let mut s: Spi<1> = Spi::new();
    for _ in 0..5 {
        s.bus_word_received(0);
    }
    s.swd_wdata_phase(0xFFFF_FFFF, 0xFE);
    // An even parity byte transmits a zero parity word.
    assert_eq!(s.tx_log, vec![0xFF, 0xFF, 0xFF, 0xFF, 0x00]);
}

#[test]
fn rdata_phase_accumulates_32_bits_across_the_clock_handoff() {
    let mut s: Spi<1> = Spi::new();
    let mut pins = Pins::new();
    let delay = Delay::new();

    // The target answers 0xDD_CC_BB_AA, low byte first.
    s.bus_word_received(0xAA);
    s.bus_word_received(0xBB);
    s.bus_word_received(0xCC);
    s.bus_word_received(0xDD);

    let before = pins.spi1_clk.level_log.len();
    let (data, parity) = s.swd_rdata_phase(&mut pins, &delay);

    // Exactly 32 accumulated bits, the fourth byte sourced from the word
    // buffered during the manual clock hand-off.
    assert_eq!(data, 0xDDCC_BBAA);
    assert_eq!(parity, 0);
    assert_eq!(s.rx_fifo.len(), 0);
    assert_eq!(s.tx_log, vec![0xFF, 0xFF, 0xFF, 0xFF]);

    // Exactly two manual clock periods, then the line goes back to the
    // shift register.
    assert_eq!(
        &pins.spi1_clk.level_log[before..],
        &[false, true, false, true]
    );
    assert_eq!(pins.spi1_clk.alt, ALT_FUNC_SPI);
    assert!(pins.spi1_clk.output_enable);
    assert!(pins.spi1_clk.level);
}

#[test]
fn rdata_phase_is_value_independent() {
    let mut s: Spi<1> = Spi::new();
    let mut pins = Pins::new();
    let delay = Delay::new();
    for w in [0u8, 0, 0, 0] {
        s.bus_word_received(w);
    }
    let (zero, _) = s.swd_rdata_phase(&mut pins, &delay);
    assert_eq!(zero, 0);
    for w in [0xFFu8, 0xFF, 0xFF, 0xFF] {
        s.bus_word_received(w);
    }
    let (ones, _) = s.swd_rdata_phase(&mut pins, &delay);
    assert_eq!(ones, 0xFFFF_FFFF);
    // Two hand-offs: four manual periods in total.
    assert_eq!(pins.spi1_clk.level_log.len(), 8);
}

#[test]
fn jtag_bulk_exchange_round_trip() {
    let mut s: Spi<2> = Spi::new();
    let mut dma = DMA::new(0x1000, 0x2000, 0x3000, 0x4000);
    dma.setup();

    for w in [7u8, 8, 9] {
        s.bus_word_received(w);
    }
    let tx = vec![1u8, 2, 3];
    let mut rx = vec![0u8; 64];
    let n = s.jtag_exchange(&mut dma, &tx, &mut rx);
    assert_eq!(n, 3);
    assert_eq!(&rx[..3], &[7, 8, 9]);
    assert_eq!(rx[3], 0);
    assert_eq!(s.tx_log, vec![1, 2, 3]);
    assert_eq!(s.rx_fifo.len(), 0);
    // Both channels ran to completion and were disabled, configuration kept.
    assert!(dma.ch2.tc && dma.ch3.tc);
    assert!(!dma.ch2.ctrl.enable && !dma.ch3.ctrl.enable);
    assert_eq!(dma.ch2.tran_size, 0);
}

#[test]
fn drain_empties_the_receive_fifo_only() {
    let mut s: Spi<1> = Spi::new();
    s.bus_word_received(1);
    s.bus_word_received(2);
    s.tx8(0x55);
    s.drain();
    assert_eq!(s.rx_fifo.len(), 0);
    assert_eq!(s.tx_log, vec![0x55]);
}

#[test]
fn base_clocks_come_from_the_clock_tree() {
    let clocks = hpm_probe::clock::Clocks::new(50_000_000, 60_000_000, 1, 2, 3);
    let mut swd: Spi<1> = Spi::new();
    let mut jtag: Spi<2> = Spi::new();
    swd.set_base_clock(&clocks);
    jtag.set_base_clock(&clocks);
    assert_eq!(swd.base_clock, 60_000_000);
    assert_eq!(jtag.base_clock, 50_000_000);
}

#[test]
fn direct_clock_control_round_trip() {
    let mut pins = Pins::new();
    pins.swd_clk_direct();
    assert_eq!(pins.spi1_clk.alt, ALT_FUNC_GPIO);
    assert!(pins.spi1_clk.output_enable);
    pins.swd_clk_spi();
    assert_eq!(pins.spi1_clk.alt, ALT_FUNC_SPI);
}
