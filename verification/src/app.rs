use vstd::prelude::*;

use crate::clock::Clocks;
use crate::delay::Delay;
use crate::dma::DMA;
use crate::gpio::{Pin, Pins, Pull};
use crate::spi::Spi;
use crate::uart::{ring_index, Uart};
use crate::usb::{InitializedUSB, PollEvent, SerialEvent};

verus! {

/// Maximum packet of the debug-command-v1 report channel.
pub const DAP1_PACKET_SIZE: u16 = 64;

/// Maximum packet of the debug-command-v2 bulk endpoints.
pub const DAP2_PACKET_SIZE: u16 = 512;

/// Maximum packet of the auxiliary serial function.
pub const VCP_PACKET_SIZE: u16 = 512;

/// Which wire protocol a debug command arrived on; the two versions differ
/// in their maximum packet size.
#[derive(Clone, Copy, PartialEq, Eq, Structural, Debug)]
pub enum DAPVersion {
    V1,
    V2,
}

/// One typed request the transport dispatcher produced from a poll. At most
/// one is in flight: the router consumes and discards it within the same
/// iteration.
pub enum Request {
    /// The bus left the Configured state: power down the debug interface.
    Suspend,
    /// A debug command on the v1 report channel.
    DAP1Command(Vec<u8>),
    /// A debug command on the v2 bulk channel.
    DAP2Command(Vec<u8>),
    /// A packet of host serial data for the auxiliary UART.
    VCPPacket(Vec<u8>),
}

/// One invocation of the command engine, prepared by the router: the raw
/// command bytes, the protocol version they arrived on, and the reply-buffer
/// capacity appropriate to that version. The engine is a collaborator
/// outside this crate, so the router hands the call out rather than making
/// it.
pub struct EngineCall {
    pub version: DAPVersion,
    pub data: Vec<u8>,
    pub reply_capacity: usize,
}

/// What the router asks its caller to do with one request, beyond the state
/// changes it performs itself.
pub enum RouterAction {
    /// Run the command engine and bring the reply to `deliver_reply`.
    RunEngine(EngineCall),
    /// Forward host serial data to the auxiliary UART path.
    ForwardSerial(Vec<u8>),
}

/// The probe's top level: the transport dispatcher, the command router, the
/// two transaction-layer instances, the trace-capture ring and the signal
/// lines, owned together so one poll can route a request across them.
pub struct App {
    pub clocks: Clocks,
    pub dma: DMA,
    pub pins: Pins,
    pub swd_spi: Spi<1>,
    pub jtag_spi: Spi<2>,
    pub usb: InitializedUSB,
    pub swo_uart: Uart<9>,
    pub delay: Delay,
    pub resp_buf: Vec<u8>,
}

impl App {
    /// The router's standing invariant: a sound capture ring, a reply buffer
    /// of the v2 packet size, and the v2 endpoints at their fixed packet
    /// size.
    pub open spec fn wf(&self) -> bool {
        &&& self.swo_uart.wf()
        &&& self.swo_uart.cursor_wf(&self.dma)
        &&& self.resp_buf@.len() == DAP2_PACKET_SIZE as int
        &&& self.usb.dap_v2.max_packet == DAP2_PACKET_SIZE
        &&& self.usb.dap1_max_packet == DAP1_PACKET_SIZE
    }

    pub fn new(
        clocks: Clocks,
        dma: DMA,
        pins: Pins,
        swd_spi: Spi<1>,
        jtag_spi: Spi<2>,
        usb: InitializedUSB,
        swo_uart: Uart<9>,
        delay: Delay,
    ) -> (r: App)
        requires
            swo_uart.wf(),
            swo_uart.cursor_wf(&dma),
            usb.dap_v2.max_packet == DAP2_PACKET_SIZE,
            usb.dap1_max_packet == DAP1_PACKET_SIZE,
        ensures
            r.wf(),
            r.clocks == clocks,
            r.dma == dma,
            r.pins == pins,
            r.swd_spi == swd_spi,
            r.jtag_spi == jtag_spi,
            r.usb == usb,
            r.swo_uart == swo_uart,
            r.delay == delay,
    {
        let mut resp_buf: Vec<u8> = Vec::new();
        let mut i: usize = 0;
        while i < 512
            invariant
                i <= 512,
                resp_buf@.len() == i,
            decreases 512 - i,
        {
            resp_buf.push(0);
            i += 1;
        }
        App { clocks, dma, pins, swd_spi, jtag_spi, usb, swo_uart, delay, resp_buf }
    }

    /// Dispatch one request. A debug command becomes an engine call sized to
    /// its protocol version; host serial data is handed on to the auxiliary
    /// path; `Suspend` powers the debug interface down on the spot — every
    /// signal line to high impedance, every status indicator to its inactive
    /// (high) state, both transaction layers drained and idled.
    pub fn process_request(&mut self, req: Request) -> (r: Option<RouterAction>)
        requires
            old(self).wf(),
        ensures
            final(self).wf(),
            req is Suspend ==> {
                &&& r is None
                &&& final(self).pins == (Pins {
                    spi1_clk: Pin {
                        output_enable: false,
                        pull: Pull::Floating,
                        ..old(self).pins.spi1_clk
                    },
                    spi1_io: Pin {
                        output_enable: false,
                        pull: Pull::Floating,
                        ..old(self).pins.spi1_io
                    },
                    spi2_clk: Pin {
                        output_enable: false,
                        pull: Pull::Floating,
                        ..old(self).pins.spi2_clk
                    },
                    spi2_io: Pin {
                        output_enable: false,
                        pull: Pull::Floating,
                        ..old(self).pins.spi2_io
                    },
                    led_r: final(self).pins.led_r,
                    led_g: final(self).pins.led_g,
                    led_b: final(self).pins.led_b,
                })
                &&& final(self).pins.led_r == (Pin {
                    level: true,
                    level_log: final(self).pins.led_r.level_log,
                    ..old(self).pins.led_r
                })
                &&& final(self).pins.led_r.level_log@ == old(self).pins.led_r.level_log@.push(true)
                &&& final(self).pins.led_g.level && final(self).pins.led_b.level
                &&& *final(self) == (App { pins: final(self).pins, ..*old(self) })
            },
            (req matches Request::DAP1Command(d) ==> (r matches Some(RouterAction::RunEngine(c))
                && c.version is V1 && c.data@ == d@ && c.reply_capacity == DAP1_PACKET_SIZE as int)
                && *final(self) == *old(self)),
            (req matches Request::DAP2Command(d) ==> (r matches Some(RouterAction::RunEngine(c))
                && c.version is V2 && c.data@ == d@ && c.reply_capacity == DAP2_PACKET_SIZE as int)
                && *final(self) == *old(self)),
            (req matches Request::VCPPacket(d) ==> (r matches Some(RouterAction::ForwardSerial(s))
                && s@ == d@) && *final(self) == *old(self)),
    {
        match req {
            Request::DAP1Command(data) => Some(RouterAction::RunEngine(EngineCall {
                version: DAPVersion::V1,
                data,
                reply_capacity: DAP1_PACKET_SIZE as usize,
            })),
            Request::DAP2Command(data) => Some(RouterAction::RunEngine(EngineCall {
                version: DAPVersion::V2,
                data,
                reply_capacity: DAP2_PACKET_SIZE as usize,
            })),
            Request::VCPPacket(data) => Some(RouterAction::ForwardSerial(data)),
            Request::Suspend => {
                self.pins.high_impedance_mode();
                self.pins.led_r.set_high();
                self.pins.led_b.set_high();
                self.pins.led_g.set_high();
                self.swd_spi.disable();
                self.jtag_spi.disable();
                None
            },
        }
    }

    /// One iteration of the router's front half: ask the dispatcher for at
    /// most one request and dispatch it. A bus-state transition away from
    /// Configured is acted on here — the debug interface is powered down —
    /// and yields no action for the caller; a debug command comes back as an
    /// engine call; serial data comes back to be forwarded.
    pub fn poll(&mut self, poll: &PollEvent, vcp_idle: bool) -> (r: Option<RouterAction>)
        requires
            old(self).wf(),
        ensures
            final(self).wf(),
            !poll.any ==> r is None && *final(self) == *old(self),
            old(self).usb.spec_suspend_event(*poll) ==> {
                &&& r is None
                &&& final(self).usb.device_state == poll.new_state
                &&& final(self).usb.dap_v2.pending@ == old(self).usb.dap_v2.pending@
                &&& final(self).usb.serial.rx@ == old(self).usb.serial.rx@
                &&& !final(self).pins.spi1_clk.output_enable && final(self).pins.spi1_clk.pull
                    == Pull::Floating
                &&& !final(self).pins.spi1_io.output_enable && !final(self).pins.spi2_clk.output_enable && !final(self).pins.spi2_io.output_enable
                &&& final(self).pins.led_r.level && final(self).pins.led_g.level && final(self).pins.led_b.level
            },
            poll.any && !old(self).usb.spec_suspend_event(*poll) ==> {
                let pend = old(self).usb.dap_v2.pending@;
                let sx = old(self).usb.serial.rx@;
                let got_command = pend.len() > 0 && pend[0]@.len() > 0;
                &&& (got_command ==> (r matches Some(RouterAction::RunEngine(c)) && c.version is V2
                    && c.data@ == pend[0]@ && c.reply_capacity == DAP2_PACKET_SIZE as int))
                &&& (!got_command && vcp_idle && sx.len() > 0 ==> (sx[0] matches SerialEvent::Data(
                    d,
                ) ==> (r matches Some(RouterAction::ForwardSerial(s)) && s@ == d@)))
                &&& (!got_command && (!vcp_idle || sx.len() == 0) ==> r is None)
                &&& final(self).pins == old(self).pins
                &&& final(self).swo_uart == old(self).swo_uart
                &&& final(self).dma == old(self).dma
            },
    {
        let req = self.usb.interrupt(vcp_idle, poll);
        match req {
            Some(req) => self.process_request(req),
            None => None,
        }
    }

    /// Deliver the command engine's reply: a non-empty reply goes back out
    /// on the endpoint matching the version it was produced for; an empty
    /// reply transmits nothing.
    pub fn deliver_reply(&mut self, version: DAPVersion, reply: &Vec<u8>)
        requires
            old(self).wf(),
            version is V1 ==> reply@.len() <= DAP1_PACKET_SIZE,
            version is V2 ==> reply@.len() <= DAP2_PACKET_SIZE,
        ensures
            final(self).wf(),
            reply@.len() == 0 ==> *final(self) == *old(self),
            reply@.len() > 0 && version is V1 ==> {
                &&& final(self).usb.dap1_written@.len() == old(self).usb.dap1_written@.len() + 1
                &&& final(self).usb.dap1_written@.last()@ == reply@
                &&& *final(self) == (App { usb: final(self).usb, ..*old(self) })
            },
            reply@.len() > 0 && version is V2 ==> {
                &&& final(self).usb.dap_v2.written@.len() == old(self).usb.dap_v2.written@.len()
                    + 1
                &&& final(self).usb.dap_v2.written@.last()@ == reply@
                &&& *final(self) == (App { usb: final(self).usb, ..*old(self) })
            },
    {
        if reply.len() == 0 {
            return ;
        }
        match version {
            DAPVersion::V1 => self.usb.dap1_reply(reply),
            DAPVersion::V2 => self.usb.dap2_reply(reply),
        }
    }

    /// Opportunistic trace pumping: when streaming is enabled and the trace
    /// endpoint is idle, pull the buffered trace bytes out of the capture
    /// ring — at most one endpoint-sized packet — and put them in flight on
    /// the trace endpoint. While the endpoint is busy the ring is left
    /// untouched, so nothing is lost and the read cursor only advances by
    /// bytes actually forwarded.
    pub fn pump_swo(&mut self, streaming: bool)
        requires
            old(self).wf(),
        ensures
            final(self).wf(),
            !streaming || old(self).usb.dap_v2.trace_busy ==> *final(self) == *old(self),
            streaming && !old(self).usb.dap_v2.trace_busy ==> {
                let avail = old(self).swo_uart.spec_available(&old(self).dma);
                let n = if avail <= DAP2_PACKET_SIZE as int {
                    avail
                } else {
                    DAP2_PACKET_SIZE as int
                };
                &&& (avail == 0 ==> *final(self) == *old(self))
                &&& (avail > 0 ==> {
                    &&& final(self).usb.dap_v2.trace_busy
                    &&& final(self).usb.dap_v2.trace_written@.len() == old(self).usb.dap_v2.trace_written@.len() + 1
                    &&& final(self).usb.dap_v2.trace_written@.last()@.len() == n
                    &&& forall|i: int|
                        0 <= i < n ==> final(self).usb.dap_v2.trace_written@.last()@[i] == old(self).swo_uart.buffer@[ring_index(
                            old(self).swo_uart.last_idx as int,
                            i,
                            old(self).swo_uart.buffer@.len() as int,
                        )]
                    &&& final(self).swo_uart.last_idx == ring_index(
                        old(self).swo_uart.last_idx as int,
                        n,
                        old(self).swo_uart.buffer@.len() as int,
                    )
                    &&& final(self).swo_uart.buffer@ == old(self).swo_uart.buffer@
                    &&& final(self).dma == old(self).dma
                })
            },
    {
        if streaming && !self.usb.dap2_swo_is_busy() {
            let n = self.swo_uart.read(&self.dma, &mut self.resp_buf);
            if n > 0 {
                let mut chunk: Vec<u8> = Vec::new();
                let mut i: usize = 0;
                while i < n
                    invariant
                        i <= n,
                        n <= self.resp_buf@.len(),
                        chunk@.len() == i,
                        forall|k: int| 0 <= k < i ==> chunk@[k] == self.resp_buf@[k],
                    decreases n - i,
                {
                    let b = self.resp_buf[i];
                    chunk.push(b);
                    i += 1;
                }
                self.usb.dap2_stream_swo(&chunk);
            }
        }
    }
}

} // verus!
