use vstd::prelude::*;

use crate::clock::Clocks;
use crate::delay::Delay;
use crate::dma::{ChannelCtrl, ChannelRegs, DMA};
use crate::gpio::{Pin, Pins, ALT_FUNC_SPI};

verus! {

/// Register codes of the shift-register peripheral's clock prescaler. Code
/// `c` divides the base clock by `2 << (c + 1)`, so the ladder of effective
/// dividers is /4, /8, /16, /32, /64, /128, /256, /512.
#[derive(Clone, Copy, PartialEq, Eq, Structural, Debug)]
pub enum SPIPrescaler {
    Div2,
    Div4,
    Div8,
    Div16,
    Div32,
    Div64,
    Div128,
    Div256,
}

impl SPIPrescaler {
    /// The value written into the prescaler register field.
    pub open spec fn spec_code(self) -> u32 {
        match self {
            SPIPrescaler::Div2 => 0,
            SPIPrescaler::Div4 => 1,
            SPIPrescaler::Div8 => 2,
            SPIPrescaler::Div16 => 3,
            SPIPrescaler::Div32 => 4,
            SPIPrescaler::Div64 => 5,
            SPIPrescaler::Div128 => 6,
            SPIPrescaler::Div256 => 7,
        }
    }

    pub fn code(&self) -> (r: u32)
        ensures
            r == self.spec_code(),
    {
        match self {
            SPIPrescaler::Div2 => 0,
            SPIPrescaler::Div4 => 1,
            SPIPrescaler::Div8 => 2,
            SPIPrescaler::Div16 => 3,
            SPIPrescaler::Div32 => 4,
            SPIPrescaler::Div64 => 5,
            SPIPrescaler::Div128 => 6,
            SPIPrescaler::Div256 => 7,
        }
    }

    /// The division of the base clock this prescaler effects.
    pub open spec fn spec_divisor(self) -> u32 {
        match self {
            SPIPrescaler::Div2 => 4,
            SPIPrescaler::Div4 => 8,
            SPIPrescaler::Div8 => 16,
            SPIPrescaler::Div16 => 32,
            SPIPrescaler::Div32 => 64,
            SPIPrescaler::Div64 => 128,
            SPIPrescaler::Div128 => 256,
            SPIPrescaler::Div256 => 512,
        }
    }

    pub fn divisor(&self) -> (r: u32)
        ensures
            r == self.spec_divisor(),
    {
        match self {
            SPIPrescaler::Div2 => 4,
            SPIPrescaler::Div4 => 8,
            SPIPrescaler::Div8 => 16,
            SPIPrescaler::Div16 => 32,
            SPIPrescaler::Div32 => 64,
            SPIPrescaler::Div64 => 128,
            SPIPrescaler::Div128 => 256,
            SPIPrescaler::Div256 => 512,
        }
    }
}

/// The clock-timing register: serial-clock divider and the two chip-select
/// timing fields.
#[derive(Clone, Copy, PartialEq, Eq, Structural, Debug)]
pub struct SpiTiming {
    pub sclk_div: u32,
    pub csht: u32,
    pub cs2sclk: u32,
}

/// The frame-format register. `data_len` holds the register's code, one less
/// than the frame width in bits.
#[derive(Clone, Copy, PartialEq, Eq, Structural, Debug)]
pub struct SpiFormat {
    pub data_len: u32,
    pub data_merge: bool,
    pub mosi_unidir: bool,
    pub lsb_first: bool,
    pub master: bool,
    pub cpol_high: bool,
    pub cpha_odd: bool,
}

/// The transfer-control register. The two count fields hold one less than
/// the number of frames written and read per command.
#[derive(Clone, Copy, PartialEq, Eq, Structural, Debug)]
pub struct SpiTransCtrl {
    pub slv_data_only: bool,
    pub cmd_en: bool,
    pub addr_en: bool,
    pub read_while_write: bool,
    pub single_io: bool,
    pub token_en: bool,
    pub wr_tran_cnt: u32,
    pub rd_tran_cnt: u32,
}

/// The format both electrical modes share: 8-bit frames, no merging,
/// unidirectional single-wire data, LSB first, master mode. Only the clock
/// polarity differs between SWD and JTAG.
pub open spec fn spec_mode_format(cpol_high: bool) -> SpiFormat {
    SpiFormat {
        data_len: 7,
        data_merge: false,
        mosi_unidir: true,
        lsb_first: true,
        master: true,
        cpol_high: cpol_high,
        cpha_odd: true,
    }
}

/// The transfer control both modes use: plain read-while-write frames on a
/// single data line, no command, address or token phases.
pub open spec fn spec_mode_transctrl() -> SpiTransCtrl {
    SpiTransCtrl {
        slv_data_only: false,
        cmd_en: false,
        addr_en: false,
        read_while_write: true,
        single_io: true,
        token_en: false,
        wr_tran_cnt: 0,
        rd_tran_cnt: 0,
    }
}

/// The timing both modes program: the divider that yields a 1.5 MHz serial
/// clock from the given base clock, and fixed chip-select timing.
pub open spec fn spec_mode_timing(base_clock: u32) -> SpiTiming {
    SpiTiming {
        sclk_div: ((base_clock as int / 1_500_000) / 2 - 1) as u32,
        csht: 11,
        cs2sclk: 3,
    }
}

/// The prescaler the layer selects for a requested ceiling: the smallest
/// divider of the ladder whose resulting frequency does not exceed
/// `max_frequency`, none if even the slowest is too fast or the base clock
/// is not known yet.
pub open spec fn spec_prescaler(base_clock: u32, max_frequency: u32) -> Option<SPIPrescaler> {
    if base_clock == 0 {
        None
    } else if base_clock as int / 4 <= max_frequency {
        Some(SPIPrescaler::Div2)
    } else if base_clock as int / 8 <= max_frequency {
        Some(SPIPrescaler::Div4)
    } else if base_clock as int / 16 <= max_frequency {
        Some(SPIPrescaler::Div8)
    } else if base_clock as int / 32 <= max_frequency {
        Some(SPIPrescaler::Div16)
    } else if base_clock as int / 64 <= max_frequency {
        Some(SPIPrescaler::Div32)
    } else if base_clock as int / 128 <= max_frequency {
        Some(SPIPrescaler::Div64)
    } else if base_clock as int / 256 <= max_frequency {
        Some(SPIPrescaler::Div128)
    } else if base_clock as int / 512 <= max_frequency {
        Some(SPIPrescaler::Div256)
    } else {
        None
    }
}

/// The selection rule picks the divider class exactly: whenever a prescaler
/// is selected, its resulting frequency is within the ceiling, and every
/// faster (smaller) divider of the ladder overshoots it.
pub proof fn lemma_prescaler_selects_smallest(base_clock: u32, max_frequency: u32, p: SPIPrescaler)
    requires
        spec_prescaler(base_clock, max_frequency) == Some(p),
    ensures
        base_clock as int / p.spec_divisor() as int <= max_frequency,
        forall|q: SPIPrescaler|
            q.spec_divisor() < p.spec_divisor() ==> base_clock as int / q.spec_divisor() as int
                > max_frequency,
{
    assert forall|q: SPIPrescaler|
        q.spec_divisor() < p.spec_divisor() implies base_clock as int / q.spec_divisor() as int
        > max_frequency by {
        let b = base_clock as int;
        assert(b / 4 >= b / 8 >= b / 16 >= b / 32 >= b / 64 >= b / 128 >= b / 256 >= b / 512)
            by (nonlinear_arith)
            requires
                b >= 0,
        ;
    }
}

/// The shared shift-register peripheral that drives the SWD or JTAG lines.
///
/// Configuration registers are modelled field by field. The data flow is
/// modelled by two queues: `tx_log` records every word pushed into the
/// transmit path, oldest first, and `rx_fifo` holds the words the target has
/// shifted back and the logic has not read yet — the receive discipline is
/// half duplex over the shift register, one received word per transmitted
/// word. The board layer (or a test) feeds the target's words in through
/// `bus_word_received`.
pub struct Spi<const N: u8> {
    pub base_clock: u32,
    pub timing: SpiTiming,
    pub format: SpiFormat,
    pub transctrl: SpiTransCtrl,
    pub tx_dma_en: bool,
    pub rx_dma_en: bool,
    pub tx_log: Vec<u32>,
    pub rx_fifo: Vec<u8>,
}

impl<const N: u8> Spi<N> {
    pub fn new() -> (r: Spi<N>)
        ensures
            r.base_clock == 0,
            r.tx_log@.len() == 0,
            r.rx_fifo@.len() == 0,
            !r.tx_dma_en,
            !r.rx_dma_en,
    {
        Spi {
            base_clock: 0,
            timing: SpiTiming { sclk_div: 0, csht: 0, cs2sclk: 0 },
            format: SpiFormat {
                data_len: 0,
                data_merge: false,
                mosi_unidir: false,
                lsb_first: false,
                master: false,
                cpol_high: false,
                cpha_odd: false,
            },
            transctrl: SpiTransCtrl {
                slv_data_only: false,
                cmd_en: false,
                addr_en: false,
                read_while_write: false,
                single_io: false,
                token_en: false,
                wr_tran_cnt: 0,
                rd_tran_cnt: 0,
            },
            tx_dma_en: false,
            rx_dma_en: false,
            tx_log: Vec::new(),
            rx_fifo: Vec::new(),
        }
    }

    /// Record one word the target drove back over the data line. Every
    /// transmitted word yields exactly one received word; the board layer
    /// (or a test) enters them here, in bus order.
    pub fn bus_word_received(&mut self, w: u8)
        ensures
            final(self).rx_fifo@ == old(self).rx_fifo@.push(w),
            *final(self) == (Spi { rx_fifo: final(self).rx_fifo, ..*old(self) }),
    {
        self.rx_fifo.push(w);
    }

    /// Configure the peripheral for SWD: sample on the falling edge with the
    /// clock idling high, 8-bit LSB-first master frames on a single
    /// unidirectional data line, and the default 1.5 MHz-equivalent divider
    /// computed from the live base clock.
    pub fn setup_swd(&mut self)
        requires
            old(self).base_clock >= 3_000_000,
        ensures
            *final(self) == (Spi {
                timing: spec_mode_timing(old(self).base_clock),
                format: spec_mode_format(true),
                transctrl: spec_mode_transctrl(),
                ..*old(self)
            }),
    {
        let sclk_div = (self.base_clock / 1_500_000) / 2 - 1;
        self.timing = SpiTiming { sclk_div, csht: 11, cs2sclk: 3 };
        self.format = SpiFormat {
            data_len: 7,
            data_merge: false,
            mosi_unidir: true,
            lsb_first: true,
            master: true,
            cpol_high: true,
            cpha_odd: true,
        };
        self.transctrl = SpiTransCtrl {
            slv_data_only: false,
            cmd_en: false,
            addr_en: false,
            read_while_write: true,
            single_io: true,
            token_en: false,
            wr_tran_cnt: 0,
            rd_tran_cnt: 0,
        };
    }

    /// Configure the peripheral for JTAG: as `setup_swd`, but the clock
    /// idles low, and both DMA request lines are switched on for the bulk
    /// exchange path.
    pub fn setup_jtag(&mut self)
        requires
            old(self).base_clock >= 3_000_000,
        ensures
            *final(self) == (Spi {
                timing: spec_mode_timing(old(self).base_clock),
                format: spec_mode_format(false),
                transctrl: spec_mode_transctrl(),
                tx_dma_en: true,
                rx_dma_en: true,
                ..*old(self)
            }),
    {
        let sclk_div = (self.base_clock / 1_500_000) / 2 - 1;
        self.timing = SpiTiming { sclk_div, csht: 11, cs2sclk: 3 };
        self.format = SpiFormat {
            data_len: 7,
            data_merge: false,
            mosi_unidir: true,
            lsb_first: true,
            master: true,
            cpol_high: false,
            cpha_odd: true,
        };
        self.transctrl = SpiTransCtrl {
            slv_data_only: false,
            cmd_en: false,
            addr_en: false,
            read_while_write: true,
            single_io: true,
            token_en: false,
            wr_tran_cnt: 0,
            rd_tran_cnt: 0,
        };
        self.tx_dma_en = true;
        self.rx_dma_en = true;
    }

    /// Select the smallest divider of the ladder whose resulting frequency
    /// does not exceed the requested maximum. Succeeds exactly when the base
    /// clock is known and even the slowest divider reaches the ceiling;
    /// `lemma_prescaler_selects_smallest` states the minimality.
    pub fn calculate_prescaler(&self, max_frequency: u32) -> (r: Option<SPIPrescaler>)
        ensures
            r == spec_prescaler(self.base_clock, max_frequency),
            r is Some <==> (self.base_clock != 0 && self.base_clock as int / 512
                <= max_frequency),
    {
        proof {
            let b = self.base_clock as int;
            assert(b / 4 >= b / 8 >= b / 16 >= b / 32 >= b / 64 >= b / 128 >= b / 256 >= b / 512)
                by (nonlinear_arith)
                requires
                    b >= 0,
            ;
        }
        let base_clock = self.base_clock;
        if base_clock == 0 {
            return None;
        }
        if base_clock / 4 <= max_frequency {
            return Some(SPIPrescaler::Div2);
        }
        if base_clock / 8 <= max_frequency {
            return Some(SPIPrescaler::Div4);
        }
        if base_clock / 16 <= max_frequency {
            return Some(SPIPrescaler::Div8);
        }
        if base_clock / 32 <= max_frequency {
            return Some(SPIPrescaler::Div16);
        }
        if base_clock / 64 <= max_frequency {
            return Some(SPIPrescaler::Div32);
        }
        if base_clock / 128 <= max_frequency {
            return Some(SPIPrescaler::Div64);
        }
        if base_clock / 256 <= max_frequency {
            return Some(SPIPrescaler::Div128);
        }
        if base_clock / 512 <= max_frequency {
            return Some(SPIPrescaler::Div256);
        }
        None
    }

    /// Change the serial-clock rate to a selected prescaler. Re-rating after
    /// mode setup is a disabled extension point: the divider stays as the
    /// mode setup programmed it.
    pub fn set_prescaler(&self, prescaler: SPIPrescaler) {
        let _ = prescaler;
    }

    /// Wait for any pending operation, then leave the peripheral idle: a
    /// drain-then-idle step, not a register reset.
    pub fn disable(&self) {
        self.wait_busy();
    }

    /// Wait for the current shift operation to complete. A hardware
    /// synchronization point; the model's state does not change while the
    /// shift register runs, so the wait has no observable effect here.
    pub fn wait_busy(&self) {
    }

    /// Wait until the receive FIFO holds a word. In the model the wait
    /// terminates exactly when the target's word has been entered, which the
    /// precondition states.
    pub fn wait_rxne(&self)
        requires
            self.rx_fifo@.len() >= 1,
    {
    }

    /// Drop the first `count` words of the receive FIFO: the model of the
    /// receive DMA engine (or the drain after a burst) taking them out.
    fn rx_consume(&mut self, count: usize)
        requires
            count <= old(self).rx_fifo@.len(),
        ensures
            final(self).rx_fifo@ == old(self).rx_fifo@.skip(count as int),
            *final(self) == (Spi { rx_fifo: final(self).rx_fifo, ..*old(self) }),
    {
        let mut rest: Vec<u8> = Vec::new();
        let mut j: usize = count;
        let len = self.rx_fifo.len();
        while j < len
            invariant
                count <= j <= len,
                len == self.rx_fifo@.len(),
                self.rx_fifo@ == old(self).rx_fifo@,
                rest@.len() == j - count,
                forall|k: int| 0 <= k < rest@.len() ==> rest@[k] == self.rx_fifo@[count + k],
            decreases len - j,
        {
            let w = self.rx_fifo[j];
            rest.push(w);
            j += 1;
        }
        self.rx_fifo = rest;
        proof {
            assert(self.rx_fifo@ =~= old(self).rx_fifo@.skip(count as int));
        }
    }

    /// Read one word out of the receive FIFO.
    pub fn read_dr_u8(&mut self) -> (r: u8)
        requires
            old(self).rx_fifo@.len() >= 1,
        ensures
            r == old(self).rx_fifo@[0],
            final(self).rx_fifo@ == old(self).rx_fifo@.skip(1),
            *final(self) == (Spi { rx_fifo: final(self).rx_fifo, ..*old(self) }),
    {
        self.rx_fifo.remove(0)
    }

    /// Push one word into the transmit path.
    fn write_dr_u8(&mut self, data: u8)
        ensures
            final(self).tx_log@ == old(self).tx_log@.push(data as u32),
            *final(self) == (Spi { tx_log: final(self).tx_log, ..*old(self) }),
    {
        self.tx_log.push(data as u32);
    }

    /// Push one 16-bit word into the transmit path. In 8-bit or smaller
    /// frame modes this would enqueue two frames on hardware; the model
    /// records the word as written.
    fn write_dr_u16(&mut self, data: u16)
        ensures
            final(self).tx_log@ == old(self).tx_log@.push(data as u32),
            *final(self) == (Spi { tx_log: final(self).tx_log, ..*old(self) }),
    {
        self.tx_log.push(data as u32);
    }

    /// Transmit 4 bits: reconfigure the frame width, issue one framing
    /// command, push the word, and leave its echoed word in the FIFO.
    pub fn tx4(&mut self, data: u8)
        requires
            old(self).rx_fifo@.len() >= 1,
        ensures
            final(self).tx_log@ == old(self).tx_log@.push(data as u32),
            *final(self) == (Spi {
                format: SpiFormat { data_len: 3, ..old(self).format },
                transctrl: SpiTransCtrl {
                    wr_tran_cnt: 0,
                    rd_tran_cnt: 0,
                    ..old(self).transctrl
                },
                tx_log: final(self).tx_log,
                ..*old(self)
            }),
    {
        self.format.data_len = 3;
        self.transctrl.wr_tran_cnt = 0;
        self.transctrl.rd_tran_cnt = 0;
        self.write_dr_u8(data);
        self.wait_rxne();
    }

    /// Transmit 8 bits, as `tx4` with an 8-bit frame.
    pub fn tx8(&mut self, data: u8)
        requires
            old(self).rx_fifo@.len() >= 1,
        ensures
            final(self).tx_log@ == old(self).tx_log@.push(data as u32),
            *final(self) == (Spi {
                format: SpiFormat { data_len: 7, ..old(self).format },
                transctrl: SpiTransCtrl {
                    wr_tran_cnt: 0,
                    rd_tran_cnt: 0,
                    ..old(self).transctrl
                },
                tx_log: final(self).tx_log,
                ..*old(self)
            }),
    {
        self.format.data_len = 7;
        self.transctrl.wr_tran_cnt = 0;
        self.transctrl.rd_tran_cnt = 0;
        self.write_dr_u8(data);
        self.wait_rxne();
    }

    /// Transmit 16 bits, as `tx4` with a 16-bit frame.
    pub fn tx16(&mut self, data: u16)
        requires
            old(self).rx_fifo@.len() >= 1,
        ensures
            final(self).tx_log@ == old(self).tx_log@.push(data as u32),
            *final(self) == (Spi {
                format: SpiFormat { data_len: 15, ..old(self).format },
                transctrl: SpiTransCtrl {
                    wr_tran_cnt: 0,
                    rd_tran_cnt: 0,
                    ..old(self).transctrl
                },
                tx_log: final(self).tx_log,
                ..*old(self)
            }),
    {
        self.format.data_len = 15;
        self.transctrl.wr_tran_cnt = 0;
        self.transctrl.rd_tran_cnt = 0;
        self.write_dr_u16(data);
        self.wait_rxne();
    }

    /// Receive 4 bits: transmit one dummy word and read back the word the
    /// target drove.
    pub fn rx4(&mut self) -> (r: u8)
        requires
            old(self).rx_fifo@.len() >= 1,
        ensures
            r == old(self).rx_fifo@[0],
            final(self).rx_fifo@ == old(self).rx_fifo@.skip(1),
            final(self).tx_log@ == old(self).tx_log@.push(0),
            *final(self) == (Spi {
                format: SpiFormat { data_len: 3, ..old(self).format },
                transctrl: SpiTransCtrl {
                    wr_tran_cnt: 0,
                    rd_tran_cnt: 0,
                    ..old(self).transctrl
                },
                tx_log: final(self).tx_log,
                rx_fifo: final(self).rx_fifo,
                ..*old(self)
            }),
    {
        self.format.data_len = 3;
        self.transctrl.wr_tran_cnt = 0;
        self.transctrl.rd_tran_cnt = 0;
        self.write_dr_u8(0);
        self.wait_rxne();
        self.read_dr_u8()
    }

    /// Receive 5 bits, as `rx4` with a 5-bit frame.
    pub fn rx5(&mut self) -> (r: u8)
        requires
            old(self).rx_fifo@.len() >= 1,
        ensures
            r == old(self).rx_fifo@[0],
            final(self).rx_fifo@ == old(self).rx_fifo@.skip(1),
            final(self).tx_log@ == old(self).tx_log@.push(0),
            *final(self) == (Spi {
                format: SpiFormat { data_len: 4, ..old(self).format },
                transctrl: SpiTransCtrl {
                    wr_tran_cnt: 0,
                    rd_tran_cnt: 0,
                    ..old(self).transctrl
                },
                tx_log: final(self).tx_log,
                rx_fifo: final(self).rx_fifo,
                ..*old(self)
            }),
    {
        self.format.data_len = 4;
        self.transctrl.wr_tran_cnt = 0;
        self.transctrl.rd_tran_cnt = 0;
        self.write_dr_u8(0);
        self.wait_rxne();
        self.read_dr_u8()
    }

    /// Transmit an SWD WDATA phase: 32 bits of data as four 8-bit words,
    /// then one word carrying the parity bit in its least-significant
    /// position — its remaining seven bits are bus-idle, sent because
    /// reconfiguring the frame width mid-burst costs more than the padding.
    /// All five echoed words are drained and discarded.
    pub fn swd_wdata_phase(&mut self, data: u32, parity: u8)
        requires
            old(self).rx_fifo@.len() >= 5,
        ensures
            final(self).tx_log@ == old(self).tx_log@
                .push(data & 0xff)
                .push((data >> 8) & 0xff)
                .push((data >> 16) & 0xff)
                .push((data >> 24) & 0xff)
                .push((parity & 1) as u32),
            final(self).rx_fifo@ == old(self).rx_fifo@.skip(5),
            *final(self) == (Spi {
                format: SpiFormat { data_len: 7, ..old(self).format },
                transctrl: SpiTransCtrl {
                    wr_tran_cnt: 4,
                    rd_tran_cnt: 4,
                    ..old(self).transctrl
                },
                tx_log: final(self).tx_log,
                rx_fifo: final(self).rx_fifo,
                ..*old(self)
            }),
    {
        self.format.data_len = 7;
        self.transctrl.wr_tran_cnt = 4;
        self.transctrl.rd_tran_cnt = 4;

        proof {
            assert((data & 0xff) <= 0xff && ((data >> 8) & 0xff) <= 0xff && ((data >> 16) & 0xff)
                <= 0xff && ((data >> 24) & 0xff) <= 0xff && (parity & 1) <= 1) by (bit_vector);
        }
        self.tx_log.push(data & 0xff);
        self.tx_log.push((data >> 8) & 0xff);
        self.tx_log.push((data >> 16) & 0xff);
        self.tx_log.push((data >> 24) & 0xff);
        self.tx_log.push((parity & 1) as u32);

        let w0 = self.read_dr_u8();
        let w1 = self.read_dr_u8();
        let w2 = self.read_dr_u8();
        let w3 = self.read_dr_u8();
        let w4 = self.read_dr_u8();
        let _ = (w0, w1, w2, w3, w4);
        proof {
            assert(self.rx_fifo@ =~= old(self).rx_fifo@.skip(5));
        }
    }

    /// Receive an SWD RDATA phase: 32 data bits accumulated low byte first
    /// from four 8-bit words. The first three words are read immediately;
    /// then, while the fourth waits in the FIFO, the parity bit the target
    /// drives for exactly one bit period is handled by taking direct control
    /// of the clock line, inserting exactly two manual clock periods at a
    /// five-tick pitch, and handing the line back to the shift register —
    /// the cycle count is a correctness invariant, not a tunable: one pulse
    /// more or fewer shifts the framing of every later read. Only then is
    /// the buffered fourth word read, so the returned word's top byte is the
    /// word buffered across the hand-off.
    pub fn swd_rdata_phase(&mut self, pins: &mut Pins, delay: &Delay) -> (r: (u32, u8))
        requires
            old(self).rx_fifo@.len() >= 4,
        ensures
            r.0 == (old(self).rx_fifo@[0] as u32) | ((old(self).rx_fifo@[1] as u32) << 8) | ((old(self).rx_fifo@[2] as u32) << 16) | ((old(self).rx_fifo@[3] as u32) << 24),
            r.1 == 0,
            final(self).rx_fifo@ == old(self).rx_fifo@.skip(4),
            final(self).tx_log@ == old(self).tx_log@.push(0xff).push(0xff).push(0xff).push(0xff),
            *final(self) == (Spi {
                format: SpiFormat { data_len: 7, ..old(self).format },
                transctrl: SpiTransCtrl {
                    wr_tran_cnt: 3,
                    rd_tran_cnt: 3,
                    ..old(self).transctrl
                },
                tx_log: final(self).tx_log,
                rx_fifo: final(self).rx_fifo,
                ..*old(self)
            }),
            final(pins).spi1_clk.level_log@ == old(pins).spi1_clk.level_log@
                .push(false)
                .push(true)
                .push(false)
                .push(true),
            final(pins).spi1_clk.alt == ALT_FUNC_SPI,
            final(pins).spi1_clk.output_enable,
            final(pins).spi1_clk.level,
            *final(pins) == (Pins { spi1_clk: final(pins).spi1_clk, ..*old(pins) }),
    {
        self.format.data_len = 7;
        self.transctrl.wr_tran_cnt = 3;
        self.transctrl.rd_tran_cnt = 3;

        self.write_dr_u8(0xff);
        self.write_dr_u8(0xff);
        self.write_dr_u8(0xff);
        self.write_dr_u8(0xff);

        let mut data = self.read_dr_u8() as u32;
        data = data | ((self.read_dr_u8() as u32) << 8);
        data = data | ((self.read_dr_u8() as u32) << 16);

        // The current transaction must have finished before the hand-off.
        self.wait_rxne();

        // The target drives the parity bit now and releases the bus on the
        // next rising edge; the probe must be driving again before any
        // further clock, or the target sees a false start.
        pins.swd_clk_direct();

        pins.spi1_clk.set_low();
        delay.delay_ticks(5);
        pins.spi1_clk.set_high();
        delay.delay_ticks(5);

        pins.spi1_clk.set_low();
        delay.delay_ticks(5);
        pins.spi1_clk.set_high();
        delay.delay_ticks(5);

        pins.swd_clk_spi();

        // The fourth word sat buffered in the FIFO across the hand-off.
        data = data | ((self.read_dr_u8() as u32) << 24);

        proof {
            assert(self.rx_fifo@ =~= old(self).rx_fifo@.skip(4));
        }
        (data, 0)
    }

    /// Perform one JTAG bulk exchange: arm the receive and transmit DMA
    /// channels for equal-length transfers, let the engine run, and disable
    /// both channels. The model's transfer is complete when the call
    /// returns, which is what the bounded busy-wait on the receive channel's
    /// completion flag guarantees on hardware: the words the target shifts
    /// back land in `rxdata`, one per transmitted byte.
    pub fn jtag_exchange(&mut self, dma: &mut DMA, txdata: &Vec<u8>, rxdata: &mut Vec<u8>) -> (n:
        usize)
        requires
            old(rxdata)@.len() >= 64,
            txdata@.len() <= old(rxdata)@.len(),
            old(self).rx_fifo@.len() >= txdata@.len(),
        ensures
            n == txdata@.len(),
            final(rxdata)@.len() == old(rxdata)@.len(),
            forall|i: int| 0 <= i < n ==> final(rxdata)@[i] == old(self).rx_fifo@[i],
            forall|i: int| n <= i < final(rxdata)@.len() ==> final(rxdata)@[i] == old(rxdata)@[i],
            final(self).rx_fifo@ == old(self).rx_fifo@.skip(n as int),
            final(self).tx_log@ == old(self).tx_log@ + txdata@.map_values(|b: u8| b as u32),
            *final(self) == (Spi {
                tx_log: final(self).tx_log,
                rx_fifo: final(self).rx_fifo,
                ..*old(self)
            }),
            final(dma).ch2 == (ChannelRegs {
                ctrl: ChannelCtrl { enable: false, ..old(dma).ch2.ctrl },
                tran_size: 0,
                tc: true,
                abort: false,
                error: false,
                ..old(dma).ch2
            }),
            final(dma).ch3 == (ChannelRegs {
                ctrl: ChannelCtrl { enable: false, ..old(dma).ch3.ctrl },
                tran_size: 0,
                tc: true,
                abort: false,
                error: false,
                ..old(dma).ch3
            }),
            *final(dma) == (DMA { ch2: final(dma).ch2, ch3: final(dma).ch3, ..*old(dma) }),
    {
        let n = txdata.len();
        dma.spi2_enable(n, n);

        let mut i: usize = 0;
        while i < n
            invariant
                i <= n,
                n == txdata@.len(),
                n <= rxdata@.len(),
                rxdata@.len() == old(rxdata)@.len(),
                n <= self.rx_fifo@.len(),
                self.rx_fifo@ == old(self).rx_fifo@,
                forall|k: int| 0 <= k < i ==> rxdata@[k] == old(self).rx_fifo@[k],
                forall|k: int| i <= k < rxdata@.len() ==> rxdata@[k] == old(rxdata)@[k],
                self.tx_log@ == old(self).tx_log@ + txdata@.take(i as int).map_values(
                    |b: u8| b as u32,
                ),
                self.timing == old(self).timing,
                self.format == old(self).format,
                self.transctrl == old(self).transctrl,
                self.base_clock == old(self).base_clock,
                self.tx_dma_en == old(self).tx_dma_en,
                self.rx_dma_en == old(self).rx_dma_en,
            decreases n - i,
        {
            let b = txdata[i];
            self.tx_log.push(b as u32);
            let w = self.rx_fifo[i];
            rxdata.set(i, w);
            i += 1;
            proof {
                assert(self.tx_log@ =~= old(self).tx_log@ + txdata@.take(i as int).map_values(
                    |b: u8| b as u32,
                ));
            }
        }
        proof {
            assert(txdata@.take(n as int) =~= txdata@);
        }
        self.rx_consume(n);

        // The engine has moved every word; the receive channel's completion
        // flag is up and both counters have run out.
        dma.transfer_complete(crate::dma::Channel::Channel2);
        dma.transfer_complete(crate::dma::Channel::Channel3);
        dma.ch2.tran_size = 0;
        dma.ch3.tran_size = 0;

        dma.spi2_disable();
        n
    }

    /// Empty both FIFOs and reset the shift engine. The transmit history is
    /// a record of what already went out on the bus, so only the unread
    /// received words vanish.
    pub fn drain(&mut self)
        ensures
            final(self).rx_fifo@.len() == 0,
            *final(self) == (Spi { rx_fifo: final(self).rx_fifo, ..*old(self) }),
    {
        self.rx_fifo.clear();
    }
}

impl Spi<1> {
    /// Take the base clock for the SWD instance from the frozen clock tree.
    pub fn set_base_clock(&mut self, clocks: &Clocks)
        ensures
            *final(self) == (Spi { base_clock: clocks.clk_spi2, ..*old(self) }),
    {
        self.base_clock = clocks.get_clk_spi2_freq();
    }
}

impl Spi<2> {
    /// Take the base clock for the JTAG instance from the frozen clock tree.
    pub fn set_base_clock(&mut self, clocks: &Clocks)
        ensures
            *final(self) == (Spi { base_clock: clocks.clk_spi1, ..*old(self) }),
    {
        self.base_clock = clocks.get_clk_spi1_freq();
    }
}

} // verus!
