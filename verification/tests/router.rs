use hpm_probe::app::{App, DAPVersion, Request, RouterAction};
use hpm_probe::clock::Clocks;
use hpm_probe::delay::Delay;
use hpm_probe::dma::DMA;
use hpm_probe::gpio::{Pins, Pull};
use hpm_probe::spi::Spi;
use hpm_probe::uart::Uart;
use hpm_probe::usb::{DeviceState, PollEvent, UsbPeripherals, USB};

fn probe() -> App {
    let clocks = Clocks::new(50_000_000, 60_000_000, 24_000_000, 24_000_000, 1_000_000);
    let mut dma = DMA::new(0x1000, 0x2000, 0x3000, 0x4000);
    dma.setup();
    let mut pins = Pins::new();
    pins.setup();
    let mut swd_spi: Spi<1> = Spi::new();
    swd_spi.set_base_clock(&clocks);
    swd_spi.setup_swd();
    let mut jtag_spi: Spi<2> = Spi::new();
    jtag_spi.set_base_clock(&clocks);
    jtag_spi.setup_jtag();
    let usb = USB::new(UsbPeripherals::<0> { base: 0xF200_0000 }).setup();
    let mut swo_uart: Uart<9> = Uart::new();
    swo_uart.setup(&clocks);
    swo_uart.start(&mut dma);
    let mut delay = Delay::new();
    delay.set_base_clock(&clocks);
    App::new(clocks, dma, pins, swd_spi, jtag_spi, usb, swo_uart, delay)
}

#[test]
fn status_indicators_start_inactive() {
    let app = probe();
    assert!(app.pins.led_r.level && app.pins.led_g.level && app.pins.led_b.level);
    assert!(app.pins.led_r.output_enable);
}

#[test]
fn debug_command_becomes_an_engine_call() {
    let mut app = probe();
    app.usb.dap_v2.host_packet_arrived(vec![0x02, 0x01, 0x05]);
    let action = app.poll(
        &PollEvent { any: true, new_state: DeviceState::Default },
        false,
    );
    match action {
        Some(RouterAction::RunEngine(c)) => {
            assert!(matches!(c.version, DAPVersion::V2));
            assert_eq!(c.data, vec![0x02, 0x01, 0x05]);
            assert_eq!(c.reply_capacity, 512);
        }
        _ => panic!("expected an engine call"),
    }
}

#[test]
fn replies_are_forwarded_only_when_non_empty() {
    let mut app = probe();
    app.deliver_reply(DAPVersion::V2, &vec![]);
    assert_eq!(app.usb.dap_v2.written.len(), 0);
    app.deliver_reply(DAPVersion::V2, &vec![0x02, 0x00]);
    assert_eq!(app.usb.dap_v2.written.len(), 1);
    assert_eq!(app.usb.dap_v2.written[0], vec![0x02, 0x00]);
    app.deliver_reply(DAPVersion::V1, &vec![0x01]);
    assert_eq!(app.usb.dap1_written.len(), 1);
}

#[test]
fn zero_length_command_invokes_nothing() {
    let mut app = probe();
    app.usb.dap_v2.host_packet_arrived(vec![]);
    let action = app.poll(
        &PollEvent { any: true, new_state: DeviceState::Default },
        false,
    );
    assert!(action.is_none());
    assert_eq!(app.usb.dap_v2.pending.len(), 0);
    // No engine call was produced, so no reply is ever transmitted.
    assert_eq!(app.usb.dap_v2.written.len(), 0);
    assert_eq!(app.usb.dap1_written.len(), 0);
}

#[test]
fn suspend_powers_the_debug_interface_down() {
    let mut app = probe();
    app.usb.interrupt(false, &PollEvent { any: true, new_state: DeviceState::Configured });
    let action = app.poll(
        &PollEvent { any: true, new_state: DeviceState::Suspend },
        false,
    );
    assert!(action.is_none());
    // Every debug line in high impedance.
    assert!(!app.pins.spi1_clk.output_enable);
    assert!(!app.pins.spi1_io.output_enable);
    assert!(!app.pins.spi2_clk.output_enable);
    assert!(!app.pins.spi2_io.output_enable);
    assert!(matches!(app.pins.spi1_clk.pull, Pull::Floating));
    // Indicators forced to their inactive (high) state.
    assert!(app.pins.led_r.level && app.pins.led_g.level && app.pins.led_b.level);
}

#[test]
fn serial_packets_are_handed_to_the_forwarding_path() {
    let mut app = probe();
    app.usb
        .serial
        .host_serial_event(hpm_probe::usb::SerialEvent::Data(vec![0x61, 0x62]));
    let action = app.poll(
        &PollEvent { any: true, new_state: DeviceState::Default },
        true,
    );
    match action {
        Some(RouterAction::ForwardSerial(d)) => assert_eq!(d, vec![0x61, 0x62]),
        _ => panic!("expected a serial forward"),
    }
}

#[test]
fn request_dispatch_sizes_the_reply_buffer_by_version() {
    let mut app = probe();
    let a1 = app.process_request(Request::DAP1Command(vec![1]));
    match a1 {
        Some(RouterAction::RunEngine(c)) => {
            assert!(matches!(c.version, DAPVersion::V1));
            assert_eq!(c.reply_capacity, 64);
        }
        _ => panic!("expected an engine call"),
    }
    let a2 = app.process_request(Request::DAP2Command(vec![2]));
    match a2 {
        Some(RouterAction::RunEngine(c)) => {
            assert!(matches!(c.version, DAPVersion::V2));
            assert_eq!(c.reply_capacity, 512);
        }
        _ => panic!("expected an engine call"),
    }
}

#[test]
fn trace_pump_forwards_buffered_bytes_once() {
    let mut app = probe();
    let mut dma = app.dma;
    for i in 0..5u8 {
        app.swo_uart.dma_deposit(&mut dma, 0x50 + i);
    }
    app.dma = dma;

    // Streaming disabled: the ring is left alone.
    app.pump_swo(false);
    assert_eq!(app.usb.dap_v2.trace_written.len(), 0);
    assert_eq!(app.swo_uart.last_idx, 0);

    // Streaming enabled and endpoint idle: one packet goes out.
    app.pump_swo(true);
    assert_eq!(app.usb.dap_v2.trace_written.len(), 1);
    assert_eq!(
        app.usb.dap_v2.trace_written[0],
        vec![0x50, 0x51, 0x52, 0x53, 0x54]
    );
    assert_eq!(app.swo_uart.last_idx, 5);
    assert!(app.usb.dap2_swo_is_busy());

    // Endpoint busy: a second pump leaves everything untouched.
    let mut dma = app.dma;
    app.swo_uart.dma_deposit(&mut dma, 0x99);
    app.dma = dma;
    app.pump_swo(true);
    assert_eq!(app.usb.dap_v2.trace_written.len(), 1);
    assert_eq!(app.swo_uart.last_idx, 5);

    // Completion frees the endpoint; the remaining byte follows.
    let trace_ep = app.usb.dap_v2.trace_ep;
    app.usb.dap_v2.endpoint_in_complete(trace_ep);
    app.pump_swo(true);
    assert_eq!(app.usb.dap_v2.trace_written.len(), 2);
    assert_eq!(app.usb.dap_v2.trace_written[1], vec![0x99]);
}

#[test]
fn idle_poll_does_nothing() {
    let mut app = probe();
    let action = app.poll(
        &PollEvent { any: false, new_state: DeviceState::Suspend },
        true,
    );
    assert!(action.is_none());
    assert!(matches!(app.usb.device_state, DeviceState::Default));
}
