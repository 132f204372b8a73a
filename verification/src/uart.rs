use vstd::prelude::*;

use crate::clock::Clocks;
use crate::dma::{ChannelCtrl, ChannelRegs, DMA};

verus! {

/// Position `start + i` on a ring of `len` slots, for `start < len` and
/// `start + i < 2 * len`: the sum, wrapped past the end at most once.
pub open spec fn ring_index(start: int, i: int, len: int) -> int {
    if start + i < len {
        start + i
    } else {
        start + i - len
    }
}

/// A UART with a DMA-fed circular receive buffer.
///
/// The hardware side of the ring is one DMA channel that deposits received
/// bytes into `buffer` and counts its remaining-transfer register down,
/// wrapping indefinitely; the write cursor is `buffer.len() - remaining`.
/// The software side owns the read cursor `last_idx`. The consumer never
/// reads past the hardware cursor snapshot taken at the start of a read;
/// a producer overrun (a full lap over unread data) is not detected.
///
/// The UART's configuration registers are modelled field by field; `tx_log`
/// records every byte handed to the transmit path.
pub struct Uart<const N: u8> {
    pub buffer: Vec<u8>,
    pub last_idx: usize,
    pub fck: u32,
    pub dlab: bool,
    pub dll: u32,
    pub dlm: u32,
    pub word_len_8: bool,
    pub dma_enabled: bool,
    pub fifo_enabled: bool,
    pub thr_empty: bool,
    pub tx_log: Vec<u8>,
}

impl<const N: u8> Uart<N> {
    /// Structural soundness of the ring: a non-empty buffer and a normalized
    /// read cursor.
    pub open spec fn wf(&self) -> bool {
        &&& self.buffer@.len() > 0
        &&& self.last_idx < self.buffer@.len()
    }

    /// The remaining-transfer register of the receive channel never exceeds
    /// the buffer it was armed with, and never reads zero: a circular
    /// transfer reloads the count the moment it runs out, so the zero is a
    /// transient the logic never observes.
    pub open spec fn cursor_wf(&self, dma: &DMA) -> bool {
        1 <= dma.ch6.tran_size <= self.buffer@.len()
    }

    /// The hardware write cursor: the slot the DMA engine fills next.
    pub open spec fn spec_wr_cursor(&self, dma: &DMA) -> int {
        self.buffer@.len() - dma.ch6.tran_size
    }

    /// Bytes received but not yet consumed: the circular distance from the
    /// read cursor to the write cursor.
    pub open spec fn spec_available(&self, dma: &DMA) -> int {
        let cur = self.spec_wr_cursor(dma);
        if cur >= self.last_idx {
            cur - self.last_idx
        } else {
            self.buffer@.len() - self.last_idx + cur
        }
    }

    /// A fresh UART handle: 256-byte ring, cursor at zero, registers in
    /// reset state, the default 24 MHz module clock.
    pub fn new() -> (r: Uart<N>)
        ensures
            r.wf(),
            r.buffer@.len() == 256,
            forall|i: int| 0 <= i < 256 ==> r.buffer@[i] == 0u8,
            r.last_idx == 0,
            r.fck == 24_000_000u32,
            !r.dlab,
            r.dll == 0,
            r.dlm == 0,
            !r.word_len_8,
            !r.dma_enabled,
            !r.fifo_enabled,
            r.thr_empty,
            r.tx_log@.len() == 0,
    {
        let mut buffer: Vec<u8> = Vec::new();
        let mut i: usize = 0;
        while i < 256
            invariant
                i <= 256,
                buffer@.len() == i,
                forall|k: int| 0 <= k < i ==> buffer@[k] == 0u8,
            decreases 256 - i,
        {
            buffer.push(0);
            i += 1;
        }
        Uart {
            buffer,
            last_idx: 0,
            fck: 24_000_000,
            dlab: false,
            dll: 0,
            dlm: 0,
            word_len_8: false,
            dma_enabled: false,
            fifo_enabled: false,
            thr_empty: true,
            tx_log: Vec::new(),
        }
    }

    /// Take the module clock frequency for this UART instance from the
    /// frozen clock tree. Only instances 0 and 9 exist on this probe.
    fn set_fck(&mut self, clock: &Clocks)
        requires
            N == 0 || N == 9,
        ensures
            final(self).fck == if N == 0 { clock.clk_uart0 } else { clock.clk_uart9 },
            *final(self) == (Uart { fck: final(self).fck, ..*old(self) }),
    {
        if N == 0 {
            self.fck = clock.get_clk_uart0_freq();
        } else {
            self.fck = clock.get_clk_uart9_freq();
        }
    }

    /// One-time configuration: interrupts off, 8-bit words, receive path
    /// handed to the DMA engine, module clock taken from the clock tree.
    pub fn setup(&mut self, clock: &Clocks)
        requires
            N == 0 || N == 9,
        ensures
            final(self).fck == if N == 0 { clock.clk_uart0 } else { clock.clk_uart9 },
            *final(self) == (Uart {
                fck: final(self).fck,
                dlm: 0,
                word_len_8: true,
                dma_enabled: true,
                ..*old(self)
            }),
    {
        self.dlm = 0;
        self.set_fck(clock);
        self.word_len_8 = true;
        self.dma_enabled = true;
    }

    /// Program the baud-rate divisor latch for the requested rate and return
    /// the rate actually obtained, `fck / divisor / 16`. The two divisor
    /// registers hold the low and high bytes of `fck / (baud * 16)`.
    pub fn set_baud(&mut self, baud: u32) -> (r: u32)
        requires
            1 <= baud,
            baud * 16 <= old(self).fck,
            baud <= 0x0FFF_FFFFu32,
        ensures
            final(self).dll == (old(self).fck as int / (baud as int * 16)) % 256,
            final(self).dlm == (old(self).fck as int / (baud as int * 16)) / 256 % 256,
            !final(self).dlab,
            r == old(self).fck as int / (old(self).fck as int / (baud as int * 16)) / 16,
            *final(self) == (Uart {
                dlab: false,
                dll: final(self).dll,
                dlm: final(self).dlm,
                ..*old(self)
            }),
    {
        self.dlab = true;

        let div = self.fck / (baud * 16);
        proof {
            assert(self.fck as int / (baud as int * 16) >= 1) by (nonlinear_arith)
                requires
                    baud as int * 16 <= self.fck as int,
                    baud as int * 16 > 0,
            ;
        }
        self.dll = div % 256;
        self.dlm = div / 256 % 256;

        self.dlab = false;

        self.fck / div / 16
    }

    /// True when the transmit holding register is empty. On hardware this is
    /// a live status bit; the board layer keeps the model's copy current.
    pub fn is_tx_fifo_empty(&self) -> (r: bool)
        ensures
            r == self.thr_empty,
    {
        self.thr_empty
    }

    /// Hand one byte to the transmit path. The wait for an empty holding
    /// register becomes a precondition of the model.
    pub fn send_byte(&mut self, byte: u8)
        requires
            old(self).thr_empty,
        ensures
            final(self).tx_log@ == old(self).tx_log@.push(byte),
            *final(self) == (Uart { tx_log: final(self).tx_log, ..*old(self) }),
    {
        self.tx_log.push(byte);
    }

    /// Begin reception into the ring: reset the read cursor, enable the
    /// receive FIFO, and — on the capture instance, which owns DMA channel
    /// 6 — arm a circular receive transfer covering the whole buffer.
    pub fn start(&mut self, dma: &mut DMA)
        ensures
            *final(self) == (Uart { last_idx: 0, fifo_enabled: true, ..*old(self) }),
            N == 9 ==> *final(dma) == (DMA {
                ch6: ChannelRegs {
                    ctrl: ChannelCtrl { enable: true, ..old(dma).ch6.ctrl },
                    tran_size: old(self).buffer@.len() as usize,
                    tc: false,
                    abort: false,
                    error: false,
                    ..old(dma).ch6
                },
                ..*old(dma)
            }),
            N != 9 ==> *final(dma) == *old(dma),
            final(self).wf() <== old(self).wf(),
    {
        self.last_idx = 0;
        self.fifo_enabled = true;
        if N == 9 {
            let len = self.buffer.len();
            dma.uart9_start(len);
        }
    }

    /// End reception: stop the capture channel and disable the FIFO. The
    /// read cursor is kept, so unread bytes stay readable.
    pub fn stop(&mut self, dma: &mut DMA)
        ensures
            *final(self) == (Uart { fifo_enabled: false, ..*old(self) }),
            *final(dma) == (DMA {
                ch6: ChannelRegs {
                    ctrl: ChannelCtrl { enable: false, ..old(dma).ch6.ctrl },
                    ..old(dma).ch6
                },
                ..*old(dma)
            }),
    {
        dma.uart9_stop();
        self.fifo_enabled = false;
    }

    /// True while reception is enabled.
    pub fn is_active(&self) -> (r: bool)
        ensures
            r == self.fifo_enabled,
    {
        self.fifo_enabled
    }

    /// Capacity of the ring.
    pub fn buffer_len(&self) -> (r: usize)
        ensures
            r == self.buffer@.len(),
    {
        self.buffer.len()
    }

    /// Number of bytes received but not yet consumed, computed from one
    /// snapshot of the hardware cursor. A read-only observation: calling it
    /// any number of times between two `read`s returns the same value, as
    /// `lemma_bytes_available_idempotent` states.
    pub fn bytes_available(&self, dma: &DMA) -> (r: usize)
        requires
            self.wf(),
            self.cursor_wf(dma),
        ensures
            r == self.spec_available(dma),
    {
        let dma_idx = self.buffer.len() - dma.uart9_ndtr();
        if dma_idx >= self.last_idx {
            dma_idx - self.last_idx
        } else {
            (self.buffer.len() - self.last_idx) + dma_idx
        }
    }

    /// Read received bytes into `rx`, truncating to `rx`'s length.
    ///
    /// One snapshot of the hardware write cursor is taken; exactly
    /// `min(available, rx.len())` bytes are copied, in the order the DMA
    /// engine wrote them, splitting the copy in two when the span crosses
    /// the buffer's end; the read cursor advances by exactly the bytes
    /// copied, so a caller with a small destination sees the remainder on a
    /// later call.
    pub fn read(&mut self, dma: &DMA, rx: &mut Vec<u8>) -> (n: usize)
        requires
            old(self).wf(),
            old(self).cursor_wf(dma),
        ensures
            final(self).wf(),
            n == if old(self).spec_available(dma) <= old(rx)@.len() {
                old(self).spec_available(dma)
            } else {
                old(rx)@.len() as int
            },
            final(rx)@.len() == old(rx)@.len(),
            forall|i: int|
                0 <= i < n ==> final(rx)@[i] == old(self).buffer@[ring_index(
                    old(self).last_idx as int,
                    i,
                    old(self).buffer@.len() as int,
                )],
            forall|i: int| n <= i < final(rx)@.len() ==> final(rx)@[i] == old(rx)@[i],
            final(self).last_idx == ring_index(
                old(self).last_idx as int,
                n as int,
                old(self).buffer@.len() as int,
            ),
            *final(self) == (Uart { last_idx: final(self).last_idx, ..*old(self) }),
            final(self).spec_available(dma) == old(self).spec_available(dma) - n,
            n == 0 ==> *final(self) == *old(self) && *final(rx) == *old(rx),
    {
        let len = self.buffer.len();
        // One snapshot of where the DMA engine writes next; data the engine
        // deposits after this line is picked up by the next call.
        let dma_idx = len - dma.uart9_ndtr();

        let avail = if dma_idx >= self.last_idx {
            dma_idx - self.last_idx
        } else {
            (len - self.last_idx) + dma_idx
        };
        let n = if avail <= rx.len() { avail } else { rx.len() };
        if n == 0 {
            return 0;
        }

        // First contiguous span: from the read cursor up to the buffer's end.
        let n1 = if n <= len - self.last_idx { n } else { len - self.last_idx };

        let mut i: usize = 0;
        while i < n1
            invariant
                i <= n1,
                n1 <= n <= rx@.len(),
                self.wf(),
                n1 <= self.buffer@.len() - self.last_idx,
                len == self.buffer@.len(),
                forall|k: int| 0 <= k < i ==> rx@[k] == self.buffer@[self.last_idx + k],
                forall|k: int| i <= k < rx@.len() ==> rx@[k] == old(rx)@[k],
                rx@.len() == old(rx)@.len(),
                *self == *old(self),
            decreases n1 - i,
        {
            let b = self.buffer[self.last_idx + i];
            rx.set(i, b);
            i += 1;
        }

        let n2 = n - n1;
        let mut j: usize = 0;
        while j < n2
            invariant
                j <= n2,
                n1 + n2 == n,
                n <= rx@.len(),
                self.wf(),
                n2 < self.buffer@.len(),
                len == self.buffer@.len(),
                n1 == len - self.last_idx || n2 == 0,
                forall|k: int| 0 <= k < n1 ==> rx@[k] == self.buffer@[self.last_idx + k],
                forall|k: int| 0 <= k < j ==> rx@[n1 + k] == self.buffer@[k],
                forall|k: int| n1 + j <= k < rx@.len() ==> rx@[k] == old(rx)@[k],
                rx@.len() == old(rx)@.len(),
                *self == *old(self),
            decreases n2 - j,
        {
            let b = self.buffer[j];
            rx.set(n1 + j, b);
            j += 1;
        }

        let rem = len - self.last_idx;
        self.last_idx = if n < rem { self.last_idx + n } else { n - rem };
        n
    }

    /// Record the DMA engine depositing one received byte: the byte lands at
    /// the write cursor and the remaining-transfer register counts down,
    /// reloading to the full buffer length when it reaches zero. On hardware
    /// this happens concurrently with the processor; the board layer (or a
    /// test) feeds the bytes into the model here.
    pub fn dma_deposit(&mut self, dma: &mut DMA, byte: u8)
        requires
            old(self).wf(),
            old(self).cursor_wf(old(dma)),
            old(dma).ch6.ctrl.enable,
        ensures
            final(self).wf(),
            final(self).cursor_wf(final(dma)),
            final(self).buffer@ == old(self).buffer@.update(
                old(self).spec_wr_cursor(old(dma)),
                byte,
            ),
            final(dma).ch6.tran_size == if old(dma).ch6.tran_size == 1 {
                old(self).buffer@.len() as int
            } else {
                old(dma).ch6.tran_size - 1
            },
            *final(self) == (Uart { buffer: final(self).buffer, ..*old(self) }),
            *final(dma) == (DMA {
                ch6: ChannelRegs { tran_size: final(dma).ch6.tran_size, ..old(dma).ch6 },
                ..*old(dma)
            }),
    {
        let len = self.buffer.len();
        let cur = len - dma.ch6.tran_size;
        self.buffer.set(cur, byte);
        if dma.ch6.tran_size == 1 {
            dma.ch6.tran_size = len;
        } else {
            dma.ch6.tran_size = dma.ch6.tran_size - 1;
        }
    }
}

/// Between two `read`s nothing the availability computation depends on
/// changes, so `bytes_available` is idempotent: any two results drawn from
/// the same ring state and the same hardware-cursor register coincide.
pub proof fn lemma_bytes_available_idempotent<const N: u8>(
    u: Uart<N>,
    dma: DMA,
    r1: usize,
    r2: usize,
)
    requires
        r1 == u.spec_available(&dma),
        r2 == u.spec_available(&dma),
    ensures
        r1 == r2,
{
}

impl Uart<0> {
    /// Hand a whole buffer to the transmit DMA channel (channel 5), as one
    /// memory-to-peripheral transfer. The wait for an empty holding register
    /// becomes a precondition of the model.
    pub fn send_bytes(&mut self, dma: &mut DMA, s: &Vec<u8>)
        requires
            old(self).thr_empty,
        ensures
            *final(self) == *old(self),
            *final(dma) == (DMA {
                ch5: ChannelRegs {
                    ctrl: ChannelCtrl { enable: true, ..old(dma).ch5.ctrl },
                    tran_size: s@.len() as usize,
                    tc: false,
                    abort: false,
                    error: false,
                    ..old(dma).ch5
                },
                ..*old(dma)
            }),
    {
        let len = s.len();
        dma.uart0_start_tx_transfer(len);
    }
}

} // verus!
