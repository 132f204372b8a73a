use hpm_probe::clock::Clocks;
use hpm_probe::dma::DMA;
use hpm_probe::uart::Uart;

fn fresh() -> (Uart<9>, DMA) {
    let mut uart: Uart<9> = Uart::new();
    let mut dma = DMA::new(0x1000, 0x2000, 0x3000, 0x4000);
    dma.setup();
    uart.start(&mut dma);
    (uart, dma)
}

#[test]
fn start_arms_circular_reception() {
    let (uart, dma) = fresh();
    assert_eq!(uart.buffer_len(), 256);
    assert!(dma.ch6.ctrl.enable);
    assert_eq!(dma.uart9_ndtr(), 256);
    assert_eq!(uart.bytes_available(&dma), 0);
}

#[test]
fn wraparound_read_spanning_the_end() {
    // Capacity 256, read cursor at 250, hardware cursor wrapped to 4,
    // destination of 10 bytes: expect 6 bytes from the tail of the buffer
    // followed by 4 bytes from its head, and the cursor lands on 4.
    let (mut uart, mut dma) = fresh();
    for i in 0..250u32 {
        uart.dma_deposit(&mut dma, (i % 256) as u8);
    }
    let mut sink = vec![0u8; 512];
    assert_eq!(uart.read(&dma, &mut sink), 250);
    assert_eq!(uart.last_idx, 250);

    for i in 0..10u8 {
        uart.dma_deposit(&mut dma, 100 + i);
    }
    assert_eq!(dma.uart9_ndtr(), 252);
    assert_eq!(uart.bytes_available(&dma), 10);

    let mut rx = vec![0u8; 10];
    let n = uart.read(&dma, &mut rx);
    assert_eq!(n, 10);
    assert_eq!(rx, vec![100, 101, 102, 103, 104, 105, 106, 107, 108, 109]);
    assert_eq!(uart.last_idx, 4);
    assert_eq!(uart.bytes_available(&dma), 0);
}

#[test]
fn read_truncates_to_destination_and_keeps_remainder() {
    let (mut uart, mut dma) = fresh();
    for i in 0..8u8 {
        uart.dma_deposit(&mut dma, 10 + i);
    }
    let mut rx = vec![0u8; 3];
    assert_eq!(uart.read(&dma, &mut rx), 3);
    assert_eq!(rx, vec![10, 11, 12]);
    assert_eq!(uart.last_idx, 3);
    // The rest is still there for a later call.
    assert_eq!(uart.bytes_available(&dma), 5);
    let mut rest = vec![0u8; 16];
    assert_eq!(uart.read(&dma, &mut rest), 5);
    assert_eq!(&rest[..5], &[13, 14, 15, 16, 17]);
}

#[test]
fn read_with_nothing_received_returns_zero() {
    let (mut uart, dma) = fresh();
    let mut rx = vec![0u8; 4];
    assert_eq!(uart.read(&dma, &mut rx), 0);
    assert_eq!(rx, vec![0, 0, 0, 0]);
    assert_eq!(uart.last_idx, 0);
}

#[test]
fn read_into_an_empty_destination_consumes_nothing() {
    let (mut uart, mut dma) = fresh();
    for i in 0..4u8 {
        uart.dma_deposit(&mut dma, i);
    }
    let mut rx: Vec<u8> = Vec::new();
    assert_eq!(uart.read(&dma, &mut rx), 0);
    assert_eq!(uart.last_idx, 0);
    assert_eq!(uart.bytes_available(&dma), 4);
}

#[test]
fn bytes_available_is_idempotent_between_reads() {
    let (mut uart, mut dma) = fresh();
    for i in 0..5u8 {
        uart.dma_deposit(&mut dma, i);
    }
    let a = uart.bytes_available(&dma);
    let b = uart.bytes_available(&dma);
    let c = uart.bytes_available(&dma);
    assert_eq!(a, 5);
    assert_eq!(a, b);
    assert_eq!(b, c);
}

#[test]
fn remaining_count_reloads_at_the_buffer_end() {
    let (mut uart, mut dma) = fresh();
    for i in 0..255u32 {
        uart.dma_deposit(&mut dma, i as u8);
    }
    assert_eq!(dma.uart9_ndtr(), 1);
    uart.dma_deposit(&mut dma, 0xEE);
    // The count ran out and reloaded to the full capacity.
    assert_eq!(dma.uart9_ndtr(), 256);
}

#[test]
fn stop_keeps_the_read_cursor() {
    let (mut uart, mut dma) = fresh();
    for i in 0..4u8 {
        uart.dma_deposit(&mut dma, i);
    }
    let mut rx = vec![0u8; 2];
    uart.read(&dma, &mut rx);
    uart.stop(&mut dma);
    assert!(!uart.is_active());
    assert!(!dma.ch6.ctrl.enable);
    assert_eq!(uart.last_idx, 2);
}

#[test]
fn setup_and_baud_divisor() {
    let clocks = Clocks::new(100, 100, 24_000_000, 24_000_000, 1_000_000);
    let mut uart: Uart<9> = Uart::new();
    uart.setup(&clocks);
    assert_eq!(uart.fck, 24_000_000);
    assert!(uart.word_len_8);
    assert!(uart.dma_enabled);
    // divisor = 24_000_000 / (115200 * 16) = 13; obtained rate 24e6/13/16.
    let got = uart.set_baud(115_200);
    assert_eq!(uart.dll, 13);
    assert_eq!(uart.dlm, 0);
    assert!(!uart.dlab);
    assert_eq!(got, 24_000_000 / 13 / 16);
}

#[test]
fn transmit_path_records_bytes() {
    let mut uart: Uart<0> = Uart::new();
    let clocks = Clocks::new(100, 100, 48_000_000, 100, 100);
    uart.setup(&clocks);
    assert_eq!(uart.fck, 48_000_000);
    assert!(uart.is_tx_fifo_empty());
    uart.send_byte(0x41);
    uart.send_byte(0x42);
    assert_eq!(uart.tx_log, vec![0x41, 0x42]);

    let mut dma = DMA::new(0x1000, 0x2000, 0x3000, 0x4000);
    dma.setup();
    let s = vec![1u8, 2, 3, 4];
    uart.send_bytes(&mut dma, &s);
    assert!(dma.ch5.ctrl.enable);
    assert_eq!(dma.uart0_tx_ndtr(), 4);
}
