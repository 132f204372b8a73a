use vstd::prelude::*;

verus! {

/// Offset of the SPI data register within its peripheral's register block.
pub const SPI_DATA_OFFSET: u32 = 0x2c;

/// Offset of the UART transmit-holding register within its peripheral's block.
pub const UART_THR_OFFSET: u32 = 0x20;

/// Hardware DMA channel identifiers; channel `ChannelN` uses multiplexer slot `N`.
#[derive(Clone, Copy, PartialEq, Eq, Structural, Debug)]
pub enum Channel {
    Channel0,
    Channel1,
    Channel2,
    Channel3,
    Channel4,
    Channel5,
    Channel6,
    Channel7,
}

impl Channel {
    /// Index of the channel inside the controller's register bank, also used
    /// as its request-select value.
    pub open spec fn spec_index(self) -> u32 {
        match self {
            Channel::Channel0 => 0,
            Channel::Channel1 => 1,
            Channel::Channel2 => 2,
            Channel::Channel3 => 3,
            Channel::Channel4 => 4,
            Channel::Channel5 => 5,
            Channel::Channel6 => 6,
            Channel::Channel7 => 7,
        }
    }

    pub fn index(&self) -> (r: u32)
        ensures
            r == self.spec_index(),
    {
        match self {
            Channel::Channel0 => 0,
            Channel::Channel1 => 1,
            Channel::Channel2 => 2,
            Channel::Channel3 => 3,
            Channel::Channel4 => 4,
            Channel::Channel5 => 5,
            Channel::Channel6 => 6,
            Channel::Channel7 => 7,
        }
    }
}

/// Peripheral request lines of the DMA multiplexer.
#[derive(Clone, Copy, PartialEq, Eq, Structural, Debug)]
pub enum Source {
    Spi1Rx,
    Spi1Tx,
    Spi2Tx,
    Spi2Rx,
    Uart0Rx,
    Uart0Tx,
    Uart9Rx,
}

impl Source {
    /// Request-line number of this source at the multiplexer.
    pub open spec fn spec_request_line(self) -> u32 {
        match self {
            Source::Spi1Rx => 2,
            Source::Spi1Tx => 3,
            Source::Spi2Tx => 4,
            Source::Spi2Rx => 5,
            Source::Uart0Rx => 8,
            Source::Uart0Tx => 9,
            Source::Uart9Rx => 26,
        }
    }

    pub fn request_line(&self) -> (r: u32)
        ensures
            r == self.spec_request_line(),
    {
        match self {
            Source::Spi1Rx => 2,
            Source::Spi1Tx => 3,
            Source::Spi2Tx => 4,
            Source::Spi2Rx => 5,
            Source::Uart0Rx => 8,
            Source::Uart0Tx => 9,
            Source::Uart9Rx => 26,
        }
    }
}

/// Flow control of one side of a channel: peripheral handshake or free-running.
#[derive(Clone, Copy, PartialEq, Eq, Structural, Debug)]
pub enum Mode {
    Normal,
    Handshake,
}

/// Address-update rule of one side of a channel.
#[derive(Clone, Copy, PartialEq, Eq, Structural, Debug)]
pub enum AddrCtrl {
    Increment,
    Fixed,
}

/// One channel's control register, field by field. `priority`, `burst_size`
/// and the two width fields hold the register's field codes; code 0 means
/// lowest priority, single-transfer bursts and byte-wide accesses.
#[derive(Clone, Copy, PartialEq, Eq, Structural, Debug)]
pub struct ChannelCtrl {
    pub priority: u32,
    pub burst_size: u32,
    pub src_width: u32,
    pub dst_width: u32,
    pub src_mode: Mode,
    pub dst_mode: Mode,
    pub src_addr_ctrl: AddrCtrl,
    pub dst_addr_ctrl: AddrCtrl,
    pub src_req_sel: u32,
    pub dst_req_sel: u32,
    pub int_abt_masked: bool,
    pub int_err_masked: bool,
    pub int_tc_masked: bool,
    pub enable: bool,
}

impl ChannelCtrl {
    /// Register reset state.
    pub open spec fn spec_reset() -> ChannelCtrl {
        ChannelCtrl {
            priority: 0,
            burst_size: 0,
            src_width: 0,
            dst_width: 0,
            src_mode: Mode::Normal,
            dst_mode: Mode::Normal,
            src_addr_ctrl: AddrCtrl::Increment,
            dst_addr_ctrl: AddrCtrl::Increment,
            src_req_sel: 0,
            dst_req_sel: 0,
            int_abt_masked: false,
            int_err_masked: false,
            int_tc_masked: false,
            enable: false,
        }
    }

    pub fn reset() -> (r: ChannelCtrl)
        ensures
            r == ChannelCtrl::spec_reset(),
    {
        ChannelCtrl {
            priority: 0,
            burst_size: 0,
            src_width: 0,
            dst_width: 0,
            src_mode: Mode::Normal,
            dst_mode: Mode::Normal,
            src_addr_ctrl: AddrCtrl::Increment,
            dst_addr_ctrl: AddrCtrl::Increment,
            src_req_sel: 0,
            dst_req_sel: 0,
            int_abt_masked: false,
            int_err_masked: false,
            int_tc_masked: false,
            enable: false,
        }
    }
}

/// The control word `setup` writes for a peripheral-to-memory channel:
/// byte-granular single transfers at low priority, handshake flow control and
/// a fixed address on the peripheral side, linear increment on the memory
/// side, interrupts unmasked, channel left disabled.
pub open spec fn spec_peri_to_mem_ctrl(req: u32) -> ChannelCtrl {
    ChannelCtrl {
        priority: 0,
        burst_size: 0,
        src_width: 0,
        dst_width: 0,
        src_mode: Mode::Handshake,
        dst_mode: Mode::Normal,
        src_addr_ctrl: AddrCtrl::Fixed,
        dst_addr_ctrl: AddrCtrl::Increment,
        src_req_sel: req,
        dst_req_sel: req,
        int_abt_masked: false,
        int_err_masked: false,
        int_tc_masked: false,
        enable: false,
    }
}

/// The control word `setup` writes for a memory-to-peripheral channel,
/// mirroring `spec_peri_to_mem_ctrl`.
pub open spec fn spec_mem_to_peri_ctrl(req: u32) -> ChannelCtrl {
    ChannelCtrl {
        priority: 0,
        burst_size: 0,
        src_width: 0,
        dst_width: 0,
        src_mode: Mode::Normal,
        dst_mode: Mode::Handshake,
        src_addr_ctrl: AddrCtrl::Increment,
        dst_addr_ctrl: AddrCtrl::Fixed,
        src_req_sel: req,
        dst_req_sel: req,
        int_abt_masked: false,
        int_err_masked: false,
        int_tc_masked: false,
        enable: false,
    }
}

fn peri_to_mem_ctrl(req: u32) -> (r: ChannelCtrl)
    ensures
        r == spec_peri_to_mem_ctrl(req),
{
    ChannelCtrl {
        priority: 0,
        burst_size: 0,
        src_width: 0,
        dst_width: 0,
        src_mode: Mode::Handshake,
        dst_mode: Mode::Normal,
        src_addr_ctrl: AddrCtrl::Fixed,
        dst_addr_ctrl: AddrCtrl::Increment,
        src_req_sel: req,
        dst_req_sel: req,
        int_abt_masked: false,
        int_err_masked: false,
        int_tc_masked: false,
        enable: false,
    }
}

fn mem_to_peri_ctrl(req: u32) -> (r: ChannelCtrl)
    ensures
        r == spec_mem_to_peri_ctrl(req),
{
    ChannelCtrl {
        priority: 0,
        burst_size: 0,
        src_width: 0,
        dst_width: 0,
        src_mode: Mode::Normal,
        dst_mode: Mode::Handshake,
        src_addr_ctrl: AddrCtrl::Increment,
        dst_addr_ctrl: AddrCtrl::Fixed,
        src_req_sel: req,
        dst_req_sel: req,
        int_abt_masked: false,
        int_err_masked: false,
        int_tc_masked: false,
        enable: false,
    }
}

/// One channel's per-transfer registers and status bits. `peri_addr` is the
/// fixed peripheral data-register address bound at setup; `tran_size` is the
/// live remaining-transfer count, which hardware decrements while a transfer
/// runs. The model binds a transfer's memory buffer to the channel by
/// ownership, so the memory-side address register carries no information the
/// logic reads and is not modelled.
#[derive(Clone, Copy, PartialEq, Eq, Structural, Debug)]
pub struct ChannelRegs {
    pub ctrl: ChannelCtrl,
    pub peri_addr: u32,
    pub tran_size: usize,
    pub tc: bool,
    pub abort: bool,
    pub error: bool,
}

impl ChannelRegs {
    pub open spec fn spec_reset() -> ChannelRegs {
        ChannelRegs {
            ctrl: ChannelCtrl::spec_reset(),
            peri_addr: 0,
            tran_size: 0,
            tc: false,
            abort: false,
            error: false,
        }
    }

    pub fn reset() -> (r: ChannelRegs)
        ensures
            r == ChannelRegs::spec_reset(),
    {
        ChannelRegs {
            ctrl: ChannelCtrl::reset(),
            peri_addr: 0,
            tran_size: 0,
            tc: false,
            abort: false,
            error: false,
        }
    }
}

/// One multiplexer slot: routes a peripheral request line to its channel.
#[derive(Clone, Copy, PartialEq, Eq, Structural, Debug)]
pub struct MuxCfg {
    pub enable: bool,
    pub source: u32,
}

/// The DMA channel manager: a fixed bank of eight channels, each permanently
/// bound at `setup` to one peripheral and direction. The four base addresses
/// locate the peripherals' register blocks; the board supplies the real
/// values. Invariant kept by construction: no two logical streams share a
/// channel — SPI1 owns channels 0/1, SPI2 channels 2/3, UART0 channels 4/5
/// and UART9 channel 6.
#[derive(Clone, Copy, PartialEq, Eq, Structural, Debug)]
pub struct DMA {
    pub spi1_base: u32,
    pub spi2_base: u32,
    pub uart0_base: u32,
    pub uart9_base: u32,
    pub ch0: ChannelRegs,
    pub ch1: ChannelRegs,
    pub ch2: ChannelRegs,
    pub ch3: ChannelRegs,
    pub ch4: ChannelRegs,
    pub ch5: ChannelRegs,
    pub ch6: ChannelRegs,
    pub ch7: ChannelRegs,
    pub mux0: MuxCfg,
    pub mux1: MuxCfg,
    pub mux2: MuxCfg,
    pub mux3: MuxCfg,
    pub mux4: MuxCfg,
    pub mux5: MuxCfg,
    pub mux6: MuxCfg,
}

/// The whole register state `setup` establishes, as a function of the state
/// it starts from: every stream's channel reconfigured and its multiplexer
/// slot armed, per-transfer registers and status bits left alone, no channel
/// enabled.
pub open spec fn spec_setup(d: DMA) -> DMA {
    DMA {
        ch0: ChannelRegs {
            ctrl: spec_peri_to_mem_ctrl(0),
            peri_addr: (d.spi1_base + SPI_DATA_OFFSET) as u32,
            ..d.ch0
        },
        ch1: ChannelRegs {
            ctrl: spec_mem_to_peri_ctrl(1),
            peri_addr: (d.spi1_base + SPI_DATA_OFFSET) as u32,
            ..d.ch1
        },
        ch2: ChannelRegs {
            ctrl: spec_peri_to_mem_ctrl(2),
            peri_addr: (d.spi2_base + SPI_DATA_OFFSET) as u32,
            ..d.ch2
        },
        ch3: ChannelRegs {
            ctrl: spec_mem_to_peri_ctrl(3),
            peri_addr: (d.spi2_base + SPI_DATA_OFFSET) as u32,
            ..d.ch3
        },
        ch4: ChannelRegs {
            ctrl: spec_peri_to_mem_ctrl(4),
            peri_addr: (d.uart0_base + UART_THR_OFFSET) as u32,
            ..d.ch4
        },
        ch5: ChannelRegs {
            ctrl: spec_mem_to_peri_ctrl(5),
            peri_addr: (d.uart0_base + UART_THR_OFFSET) as u32,
            ..d.ch5
        },
        ch6: ChannelRegs {
            ctrl: spec_peri_to_mem_ctrl(6),
            peri_addr: (d.uart9_base + UART_THR_OFFSET) as u32,
            ..d.ch6
        },
        mux0: MuxCfg { enable: true, source: Source::Spi1Rx.spec_request_line() },
        mux1: MuxCfg { enable: true, source: Source::Spi1Tx.spec_request_line() },
        mux2: MuxCfg { enable: true, source: Source::Spi2Rx.spec_request_line() },
        mux3: MuxCfg { enable: true, source: Source::Spi2Tx.spec_request_line() },
        mux4: MuxCfg { enable: true, source: Source::Uart0Rx.spec_request_line() },
        mux5: MuxCfg { enable: true, source: Source::Uart0Tx.spec_request_line() },
        mux6: MuxCfg { enable: true, source: Source::Uart9Rx.spec_request_line() },
        ..d
    }
}

/// The register state after the controller raises channel `ch`'s
/// transfer-complete flag: only that one status bit changes.
pub open spec fn spec_raise_tc(d: DMA, ch: Channel) -> DMA {
    match ch {
        Channel::Channel0 => DMA { ch0: ChannelRegs { tc: true, ..d.ch0 }, ..d },
        Channel::Channel1 => DMA { ch1: ChannelRegs { tc: true, ..d.ch1 }, ..d },
        Channel::Channel2 => DMA { ch2: ChannelRegs { tc: true, ..d.ch2 }, ..d },
        Channel::Channel3 => DMA { ch3: ChannelRegs { tc: true, ..d.ch3 }, ..d },
        Channel::Channel4 => DMA { ch4: ChannelRegs { tc: true, ..d.ch4 }, ..d },
        Channel::Channel5 => DMA { ch5: ChannelRegs { tc: true, ..d.ch5 }, ..d },
        Channel::Channel6 => DMA { ch6: ChannelRegs { tc: true, ..d.ch6 }, ..d },
        Channel::Channel7 => DMA { ch7: ChannelRegs { tc: true, ..d.ch7 }, ..d },
    }
}

/// Configuring the channel bank twice leaves exactly the registers that
/// configuring it once leaves: the configuration step is idempotent.
pub proof fn lemma_setup_idempotent(d: DMA)
    ensures
        spec_setup(spec_setup(d)) == spec_setup(d),
{
}

impl DMA {
    /// A controller in reset state, bound to the four peripherals' register
    /// blocks at the given base addresses.
    pub fn new(spi1_base: u32, spi2_base: u32, uart0_base: u32, uart9_base: u32) -> (r: DMA)
        ensures
            r.spi1_base == spi1_base,
            r.spi2_base == spi2_base,
            r.uart0_base == uart0_base,
            r.uart9_base == uart9_base,
            r.ch0 == ChannelRegs::spec_reset(),
            r.ch1 == ChannelRegs::spec_reset(),
            r.ch2 == ChannelRegs::spec_reset(),
            r.ch3 == ChannelRegs::spec_reset(),
            r.ch4 == ChannelRegs::spec_reset(),
            r.ch5 == ChannelRegs::spec_reset(),
            r.ch6 == ChannelRegs::spec_reset(),
            r.ch7 == ChannelRegs::spec_reset(),
            r.mux0 == (MuxCfg { enable: false, source: 0 }),
            r.mux1 == (MuxCfg { enable: false, source: 0 }),
            r.mux2 == (MuxCfg { enable: false, source: 0 }),
            r.mux3 == (MuxCfg { enable: false, source: 0 }),
            r.mux4 == (MuxCfg { enable: false, source: 0 }),
            r.mux5 == (MuxCfg { enable: false, source: 0 }),
            r.mux6 == (MuxCfg { enable: false, source: 0 }),
    {
        DMA {
            spi1_base,
            spi2_base,
            uart0_base,
            uart9_base,
            ch0: ChannelRegs::reset(),
            ch1: ChannelRegs::reset(),
            ch2: ChannelRegs::reset(),
            ch3: ChannelRegs::reset(),
            ch4: ChannelRegs::reset(),
            ch5: ChannelRegs::reset(),
            ch6: ChannelRegs::reset(),
            ch7: ChannelRegs::reset(),
            mux0: MuxCfg { enable: false, source: 0 },
            mux1: MuxCfg { enable: false, source: 0 },
            mux2: MuxCfg { enable: false, source: 0 },
            mux3: MuxCfg { enable: false, source: 0 },
            mux4: MuxCfg { enable: false, source: 0 },
            mux5: MuxCfg { enable: false, source: 0 },
            mux6: MuxCfg { enable: false, source: 0 },
        }
    }

    /// Bind every channel to its stream exactly once: channel 0 receives for
    /// SPI1, channel 1 transmits for SPI1, channels 2/3 the same for SPI2,
    /// channels 4/5 for UART0 and channel 6 receives for UART9. Arms each
    /// multiplexer slot; enables no channel.
    #[verifier::rlimit(40)]
    pub fn setup(&mut self)
        requires
            old(self).spi1_base + SPI_DATA_OFFSET <= u32::MAX,
            old(self).spi2_base + SPI_DATA_OFFSET <= u32::MAX,
            old(self).uart0_base + UART_THR_OFFSET <= u32::MAX,
            old(self).uart9_base + UART_THR_OFFSET <= u32::MAX,
        ensures
            *final(self) == spec_setup(*old(self)),
    {
        let next = DMA {
            ch0: ChannelRegs {
                ctrl: peri_to_mem_ctrl(0),
                peri_addr: self.spi1_base + SPI_DATA_OFFSET,
                ..self.ch0
            },
            ch1: ChannelRegs {
                ctrl: mem_to_peri_ctrl(1),
                peri_addr: self.spi1_base + SPI_DATA_OFFSET,
                ..self.ch1
            },
            ch2: ChannelRegs {
                ctrl: peri_to_mem_ctrl(2),
                peri_addr: self.spi2_base + SPI_DATA_OFFSET,
                ..self.ch2
            },
            ch3: ChannelRegs {
                ctrl: mem_to_peri_ctrl(3),
                peri_addr: self.spi2_base + SPI_DATA_OFFSET,
                ..self.ch3
            },
            ch4: ChannelRegs {
                ctrl: peri_to_mem_ctrl(4),
                peri_addr: self.uart0_base + UART_THR_OFFSET,
                ..self.ch4
            },
            ch5: ChannelRegs {
                ctrl: mem_to_peri_ctrl(5),
                peri_addr: self.uart0_base + UART_THR_OFFSET,
                ..self.ch5
            },
            ch6: ChannelRegs {
                ctrl: peri_to_mem_ctrl(6),
                peri_addr: self.uart9_base + UART_THR_OFFSET,
                ..self.ch6
            },
            mux0: MuxCfg { enable: true, source: Source::Spi1Rx.request_line() },
            mux1: MuxCfg { enable: true, source: Source::Spi1Tx.request_line() },
            mux2: MuxCfg { enable: true, source: Source::Spi2Rx.request_line() },
            mux3: MuxCfg { enable: true, source: Source::Spi2Tx.request_line() },
            mux4: MuxCfg { enable: true, source: Source::Uart0Rx.request_line() },
            mux5: MuxCfg { enable: true, source: Source::Uart0Tx.request_line() },
            mux6: MuxCfg { enable: true, source: Source::Uart9Rx.request_line() },
            ..*self
        };
        *self = next;
    }

    /// Arm and start a paired DMA transmit/receive for SPI1: stale status is
    /// cleared, the length registers are written, both channels are enabled.
    /// Configuration from `setup` is untouched.
    pub fn spi1_enable(&mut self, tx_len: usize, rx_len: usize)
        ensures
            final(self).ch0 == (ChannelRegs {
                ctrl: ChannelCtrl { enable: true, ..old(self).ch0.ctrl },
                tran_size: rx_len,
                tc: false,
                abort: false,
                error: false,
                ..old(self).ch0
            }),
            final(self).ch1 == (ChannelRegs {
                ctrl: ChannelCtrl { enable: true, ..old(self).ch1.ctrl },
                tran_size: tx_len,
                tc: false,
                abort: false,
                error: false,
                ..old(self).ch1
            }),
            *final(self) == (DMA { ch0: final(self).ch0, ch1: final(self).ch1, ..*old(self) }),
    {
        self.ch0.tc = false;
        self.ch0.abort = false;
        self.ch0.error = false;
        self.ch1.tc = false;
        self.ch1.abort = false;
        self.ch1.error = false;
        self.ch0.tran_size = rx_len;
        self.ch1.tran_size = tx_len;
        self.ch0.ctrl.enable = true;
        self.ch1.ctrl.enable = true;
    }

    /// True while the SPI1 exchange is still ongoing, that is, while the
    /// receive channel's transfer-complete flag has not been raised.
    pub fn spi1_busy(&self) -> (r: bool)
        ensures
            r == !self.ch0.tc,
    {
        !self.ch0.tc
    }

    /// Stop SPI1's two channels, leaving their configuration intact for
    /// re-arming.
    pub fn spi1_disable(&mut self)
        ensures
            *final(self) == (DMA {
                ch0: ChannelRegs {
                    ctrl: ChannelCtrl { enable: false, ..old(self).ch0.ctrl },
                    ..old(self).ch0
                },
                ch1: ChannelRegs {
                    ctrl: ChannelCtrl { enable: false, ..old(self).ch1.ctrl },
                    ..old(self).ch1
                },
                ..*old(self)
            }),
    {
        self.ch0.ctrl.enable = false;
        self.ch1.ctrl.enable = false;
    }

    /// Arm and start a paired DMA transmit/receive for SPI2 on channels 2/3,
    /// exactly as `spi1_enable` does on channels 0/1.
    pub fn spi2_enable(&mut self, tx_len: usize, rx_len: usize)
        ensures
            final(self).ch2 == (ChannelRegs {
                ctrl: ChannelCtrl { enable: true, ..old(self).ch2.ctrl },
                tran_size: rx_len,
                tc: false,
                abort: false,
                error: false,
                ..old(self).ch2
            }),
            final(self).ch3 == (ChannelRegs {
                ctrl: ChannelCtrl { enable: true, ..old(self).ch3.ctrl },
                tran_size: tx_len,
                tc: false,
                abort: false,
                error: false,
                ..old(self).ch3
            }),
            *final(self) == (DMA { ch2: final(self).ch2, ch3: final(self).ch3, ..*old(self) }),
    {
        self.ch2.tc = false;
        self.ch2.abort = false;
        self.ch2.error = false;
        self.ch3.tc = false;
        self.ch3.abort = false;
        self.ch3.error = false;
        self.ch2.tran_size = rx_len;
        self.ch3.tran_size = tx_len;
        self.ch2.ctrl.enable = true;
        self.ch3.ctrl.enable = true;
    }

    /// True while the SPI2 exchange is still ongoing (receive channel's
    /// transfer-complete flag not yet raised).
    pub fn spi2_busy(&self) -> (r: bool)
        ensures
            r == !self.ch2.tc,
    {
        !self.ch2.tc
    }

    /// Stop SPI2's two channels, leaving their configuration intact.
    pub fn spi2_disable(&mut self)
        ensures
            *final(self) == (DMA {
                ch2: ChannelRegs {
                    ctrl: ChannelCtrl { enable: false, ..old(self).ch2.ctrl },
                    ..old(self).ch2
                },
                ch3: ChannelRegs {
                    ctrl: ChannelCtrl { enable: false, ..old(self).ch3.ctrl },
                    ..old(self).ch3
                },
                ..*old(self)
            }),
    {
        self.ch2.ctrl.enable = false;
        self.ch3.ctrl.enable = false;
    }

    /// Start UART9 reception: clear stale status, write the transfer length
    /// and enable channel 6.
    pub fn uart9_start(&mut self, rx_len: usize)
        ensures
            *final(self) == (DMA {
                ch6: ChannelRegs {
                    ctrl: ChannelCtrl { enable: true, ..old(self).ch6.ctrl },
                    tran_size: rx_len,
                    tc: false,
                    abort: false,
                    error: false,
                    ..old(self).ch6
                },
                ..*old(self)
            }),
    {
        self.ch6.tc = false;
        self.ch6.abort = false;
        self.ch6.error = false;
        self.ch6.tran_size = rx_len;
        self.ch6.ctrl.enable = true;
    }

    /// Remaining transfer count of the UART9 receive channel, read live from
    /// the transfer-size register.
    pub fn uart9_ndtr(&self) -> (r: usize)
        ensures
            r == self.ch6.tran_size,
    {
        self.ch6.tran_size
    }

    /// Stop UART9 reception, leaving configuration intact.
    pub fn uart9_stop(&mut self)
        ensures
            *final(self) == (DMA {
                ch6: ChannelRegs {
                    ctrl: ChannelCtrl { enable: false, ..old(self).ch6.ctrl },
                    ..old(self).ch6
                },
                ..*old(self)
            }),
    {
        self.ch6.ctrl.enable = false;
    }

    /// Start UART0 reception on channel 4: clear stale status, write the
    /// transfer length and enable the channel.
    pub fn uart0_start_rx(&mut self, rx_len: usize)
        ensures
            *final(self) == (DMA {
                ch4: ChannelRegs {
                    ctrl: ChannelCtrl { enable: true, ..old(self).ch4.ctrl },
                    tran_size: rx_len,
                    tc: false,
                    abort: false,
                    error: false,
                    ..old(self).ch4
                },
                ..*old(self)
            }),
    {
        self.ch4.tc = false;
        self.ch4.abort = false;
        self.ch4.error = false;
        self.ch4.tran_size = rx_len;
        self.ch4.ctrl.enable = true;
    }

    /// Remaining transfer count of the UART0 receive channel.
    pub fn uart0_rx_ndtr(&self) -> (r: usize)
        ensures
            r == self.ch4.tran_size,
    {
        self.ch4.tran_size
    }

    /// Remaining transfer count of the UART0 transmit channel.
    pub fn uart0_tx_ndtr(&self) -> (r: usize)
        ensures
            r == self.ch5.tran_size,
    {
        self.ch5.tran_size
    }

    /// Start a UART0 transmit transfer on channel 5: clear stale status,
    /// write the transfer length and enable the channel.
    pub fn uart0_start_tx_transfer(&mut self, tx_len: usize)
        ensures
            *final(self) == (DMA {
                ch5: ChannelRegs {
                    ctrl: ChannelCtrl { enable: true, ..old(self).ch5.ctrl },
                    tran_size: tx_len,
                    tc: false,
                    abort: false,
                    error: false,
                    ..old(self).ch5
                },
                ..*old(self)
            }),
    {
        self.ch5.tc = false;
        self.ch5.abort = false;
        self.ch5.error = false;
        self.ch5.tran_size = tx_len;
        self.ch5.ctrl.enable = true;
    }

    /// Stop both UART0 channels, leaving configuration intact.
    pub fn uart0_stop(&mut self)
        ensures
            *final(self) == (DMA {
                ch4: ChannelRegs {
                    ctrl: ChannelCtrl { enable: false, ..old(self).ch4.ctrl },
                    ..old(self).ch4
                },
                ch5: ChannelRegs {
                    ctrl: ChannelCtrl { enable: false, ..old(self).ch5.ctrl },
                    ..old(self).ch5
                },
                ..*old(self)
            }),
    {
        self.ch4.ctrl.enable = false;
        self.ch5.ctrl.enable = false;
    }

    /// Record the controller raising a channel's transfer-complete flag. On
    /// hardware this happens asynchronously to the processor; the board layer
    /// (or a test) feeds the event into the model here.
    pub fn transfer_complete(&mut self, ch: Channel)
        ensures
            *final(self) == spec_raise_tc(*old(self), ch),
    {
        match ch {
            Channel::Channel0 => self.ch0.tc = true,
            Channel::Channel1 => self.ch1.tc = true,
            Channel::Channel2 => self.ch2.tc = true,
            Channel::Channel3 => self.ch3.tc = true,
            Channel::Channel4 => self.ch4.tc = true,
            Channel::Channel5 => self.ch5.tc = true,
            Channel::Channel6 => self.ch6.tc = true,
            Channel::Channel7 => self.ch7.tc = true,
        }
    }
}

} // verus!
