use hpm_probe::dma::{
    AddrCtrl, Channel, ChannelCtrl, Mode, Source, DMA, SPI_DATA_OFFSET, UART_THR_OFFSET,
};

fn configured() -> DMA {
    let mut d = DMA::new(0xF003_0000, 0xF003_1000, 0xF004_0000, 0xF004_9000);
    d.setup();
    d
}

#[test]
fn setup_binds_every_stream_to_its_own_channel() {
    let d = configured();

    // SPI1 receive on channel 0: handshake on the peripheral side, fixed
    // peripheral address, linear increment on the memory side, disabled.
    assert_eq!(d.ch0.ctrl.src_mode, Mode::Handshake);
    assert_eq!(d.ch0.ctrl.dst_mode, Mode::Normal);
    assert_eq!(d.ch0.ctrl.src_addr_ctrl, AddrCtrl::Fixed);
    assert_eq!(d.ch0.ctrl.dst_addr_ctrl, AddrCtrl::Increment);
    assert_eq!(d.ch0.ctrl.src_req_sel, 0);
    assert!(!d.ch0.ctrl.enable);
    assert_eq!(d.ch0.peri_addr, 0xF003_0000 + SPI_DATA_OFFSET);

    // SPI1 transmit on channel 1: the mirror image.
    assert_eq!(d.ch1.ctrl.src_mode, Mode::Normal);
    assert_eq!(d.ch1.ctrl.dst_mode, Mode::Handshake);
    assert_eq!(d.ch1.ctrl.src_addr_ctrl, AddrCtrl::Increment);
    assert_eq!(d.ch1.ctrl.dst_addr_ctrl, AddrCtrl::Fixed);
    assert!(!d.ch1.ctrl.enable);

    // Byte-granular single transfers at low priority everywhere.
    assert_eq!(d.ch0.ctrl.priority, 0);
    assert_eq!(d.ch0.ctrl.burst_size, 0);
    assert_eq!(d.ch0.ctrl.src_width, 0);
    assert_eq!(d.ch0.ctrl.dst_width, 0);

    // UART bindings point at the transmit-holding register.
    assert_eq!(d.ch4.peri_addr, 0xF004_0000 + UART_THR_OFFSET);
    assert_eq!(d.ch6.peri_addr, 0xF004_9000 + UART_THR_OFFSET);

    // Multiplexer slots route the documented request lines and are armed.
    assert!(d.mux0.enable && d.mux1.enable && d.mux6.enable);
    assert_eq!(d.mux0.source, 2);
    assert_eq!(d.mux1.source, 3);
    assert_eq!(d.mux2.source, 5);
    assert_eq!(d.mux3.source, 4);
    assert_eq!(d.mux4.source, 8);
    assert_eq!(d.mux5.source, 9);
    assert_eq!(d.mux6.source, 26);

    // Channel 7 stays unbound.
    assert_eq!(d.ch7.ctrl, ChannelCtrl::reset());
}

#[test]
fn setup_is_idempotent() {
    let mut once = configured();
    let twice = {
        once.setup();
        once
    };
    let again = configured();
    assert_eq!(twice, again);
}

#[test]
fn enable_clears_stale_status_and_arms_both_channels() {
    let mut d = configured();
    d.transfer_complete(Channel::Channel0);
    d.transfer_complete(Channel::Channel1);
    assert!(d.ch0.tc);

    d.spi1_enable(16, 24);
    assert!(!d.ch0.tc && !d.ch0.abort && !d.ch0.error);
    assert!(d.ch0.ctrl.enable && d.ch1.ctrl.enable);
    assert_eq!(d.ch0.tran_size, 24);
    assert_eq!(d.ch1.tran_size, 16);

    // Busy until the receive channel's completion flag is raised.
    assert!(d.spi1_busy());
    d.transfer_complete(Channel::Channel0);
    assert!(!d.spi1_busy());

    d.spi1_disable();
    assert!(!d.ch0.ctrl.enable && !d.ch1.ctrl.enable);
    // Configuration survives for re-arming.
    assert_eq!(d.ch0.ctrl.src_mode, Mode::Handshake);
}

#[test]
fn spi2_uses_channels_two_and_three() {
    let mut d = configured();
    d.spi2_enable(8, 8);
    assert!(d.ch2.ctrl.enable && d.ch3.ctrl.enable);
    assert!(!d.ch0.ctrl.enable && !d.ch1.ctrl.enable);
    assert!(d.spi2_busy());
    d.transfer_complete(Channel::Channel2);
    assert!(!d.spi2_busy());
    d.spi2_disable();
    assert!(!d.ch2.ctrl.enable && !d.ch3.ctrl.enable);
}

#[test]
fn uart_streams_report_their_remaining_counts() {
    let mut d = configured();
    d.uart9_start(256);
    assert_eq!(d.uart9_ndtr(), 256);
    d.uart9_stop();
    assert!(!d.ch6.ctrl.enable);

    d.uart0_start_rx(128);
    d.uart0_start_tx_transfer(32);
    assert_eq!(d.uart0_rx_ndtr(), 128);
    assert_eq!(d.uart0_tx_ndtr(), 32);
    d.uart0_stop();
    assert!(!d.ch4.ctrl.enable && !d.ch5.ctrl.enable);
}

#[test]
fn request_lines_match_the_documented_table() {
    assert_eq!(Source::Spi1Rx.request_line(), 2);
    assert_eq!(Source::Spi1Tx.request_line(), 3);
    assert_eq!(Source::Spi2Tx.request_line(), 4);
    assert_eq!(Source::Spi2Rx.request_line(), 5);
    assert_eq!(Source::Uart0Rx.request_line(), 8);
    assert_eq!(Source::Uart0Tx.request_line(), 9);
    assert_eq!(Source::Uart9Rx.request_line(), 26);
    assert_eq!(Channel::Channel6.index(), 6);
}
