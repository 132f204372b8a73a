use vstd::prelude::*;

use crate::app::Request;
use crate::dap_v2::CmsisDapV2;
use crate::dfu::DfuRuntime;

verus! {

/// Errors of the transport layer the logic distinguishes.
#[derive(Clone, Copy, PartialEq, Eq, Structural, Debug)]
pub enum UsbError {
    /// The operation cannot proceed now (no data, endpoint in flight).
    WouldBlock,
    /// A packet exceeds the endpoint's maximum packet size.
    BufferOverflow,
    /// A transport-level fault; recovered by discarding and retrying on the
    /// next iteration.
    Transport,
}

/// The composite device's bus state, observed once per dispatcher poll.
#[derive(Clone, Copy, PartialEq, Eq, Structural, Debug)]
pub enum DeviceState {
    Default,
    Addressed,
    Configured,
    Suspend,
}

/// What one poll of the bus hardware reported: whether any function saw an
/// event, and the device state after the poll.
#[derive(Clone, Copy, PartialEq, Eq, Structural, Debug)]
pub struct PollEvent {
    pub any: bool,
    pub new_state: DeviceState,
}

/// Interface, string and endpoint numbering of the composite device, handed
/// out in registration order. Endpoint 0 is the control endpoint, so data
/// endpoints count from one; IN endpoint addresses carry the direction bit.
pub struct UsbAllocator {
    pub next_interface: u8,
    pub next_string: u8,
    pub next_ep_in: u8,
    pub next_ep_out: u8,
}

impl UsbAllocator {
    pub fn new() -> (r: UsbAllocator)
        ensures
            r.next_interface == 0,
            r.next_string == 4,
            r.next_ep_in == 1,
            r.next_ep_out == 1,
    {
        // String indices 0 to 3 are the language table and the device's
        // manufacturer, product and serial strings.
        UsbAllocator { next_interface: 0, next_string: 4, next_ep_in: 1, next_ep_out: 1 }
    }

    pub fn interface(&mut self) -> (r: u8)
        requires
            old(self).next_interface < 0xFF,
        ensures
            r == old(self).next_interface,
            *final(self) == (UsbAllocator {
                next_interface: (old(self).next_interface + 1) as u8,
                ..*old(self)
            }),
    {
        let r = self.next_interface;
        self.next_interface = self.next_interface + 1;
        r
    }

    pub fn string(&mut self) -> (r: u8)
        requires
            old(self).next_string < 0xFF,
        ensures
            r == old(self).next_string,
            *final(self) == (UsbAllocator {
                next_string: (old(self).next_string + 1) as u8,
                ..*old(self)
            }),
    {
        let r = self.next_string;
        self.next_string = self.next_string + 1;
        r
    }

    /// Allocate a host-to-device (OUT) endpoint; the address is the bare
    /// endpoint number.
    pub fn bulk_out(&mut self) -> (r: u8)
        requires
            old(self).next_ep_out < 15,
        ensures
            r == old(self).next_ep_out,
            *final(self) == (UsbAllocator {
                next_ep_out: (old(self).next_ep_out + 1) as u8,
                ..*old(self)
            }),
    {
        let r = self.next_ep_out;
        self.next_ep_out = self.next_ep_out + 1;
        r
    }

    /// Allocate a device-to-host (IN) endpoint; the address carries the
    /// direction bit.
    pub fn bulk_in(&mut self) -> (r: u8)
        requires
            old(self).next_ep_in < 15,
        ensures
            r == 0x80u8 + old(self).next_ep_in,
            *final(self) == (UsbAllocator {
                next_ep_in: (old(self).next_ep_in + 1) as u8,
                ..*old(self)
            }),
    {
        let r = 0x80 + self.next_ep_in;
        self.next_ep_in = self.next_ep_in + 1;
        r
    }
}

/// Line encoding of the auxiliary virtual-serial function: rate, stop-bit
/// code (0 is one stop bit), data bits, parity code (0 is none).
#[derive(Clone, Copy, PartialEq, Eq, Structural, Debug)]
pub struct LineCoding {
    pub data_rate: u32,
    pub stop_bits: u8,
    pub data_bits: u8,
    pub parity_type: u8,
}

/// One outcome of polling the auxiliary serial function for host data.
pub enum SerialEvent {
    /// The host delivered a packet.
    Data(Vec<u8>),
    /// The transport failed; the read is abandoned and retried next
    /// iteration.
    TransportError,
}

/// The auxiliary virtual-serial function: a read queue of what the host sent
/// (entered by the board layer or a test), a log of every packet returned to
/// the host, and the negotiated line encoding.
pub struct SerialPort {
    pub comm_if: u8,
    pub data_if: u8,
    pub rx: Vec<SerialEvent>,
    pub written: Vec<Vec<u8>>,
    pub line_coding: LineCoding,
}

impl SerialPort {
    /// Allocate the function's two interfaces and three endpoints, with the
    /// stack's initial line encoding: 8000 baud, one stop bit, 8 data bits,
    /// no parity.
    pub fn new(alloc: &mut UsbAllocator) -> (r: SerialPort)
        requires
            old(alloc).next_interface < 0xFE,
            old(alloc).next_ep_in < 14,
            old(alloc).next_ep_out < 15,
        ensures
            r.comm_if == old(alloc).next_interface,
            r.data_if == old(alloc).next_interface + 1,
            r.rx@.len() == 0,
            r.written@.len() == 0,
            r.line_coding == (LineCoding {
                data_rate: 8000,
                stop_bits: 0,
                data_bits: 8,
                parity_type: 0,
            }),
            *final(alloc) == (UsbAllocator {
                next_interface: (old(alloc).next_interface + 2) as u8,
                next_ep_in: (old(alloc).next_ep_in + 2) as u8,
                next_ep_out: (old(alloc).next_ep_out + 1) as u8,
                ..*old(alloc)
            }),
    {
        let comm_if = alloc.interface();
        let _comm_ep = alloc.bulk_in();
        let data_if = alloc.interface();
        let _read_ep = alloc.bulk_out();
        let _write_ep = alloc.bulk_in();
        SerialPort {
            comm_if,
            data_if,
            rx: Vec::new(),
            written: Vec::new(),
            line_coding: LineCoding { data_rate: 8000, stop_bits: 0, data_bits: 8, parity_type: 0 },
        }
    }

    /// Record one outcome of host serial traffic for the next poll.
    pub fn host_serial_event(&mut self, ev: SerialEvent)
        ensures
            final(self).rx@ == old(self).rx@.push(ev),
            *final(self) == (SerialPort { rx: final(self).rx, ..*old(self) }),
    {
        self.rx.push(ev);
    }

    /// One non-blocking read: take the oldest outcome. No outcome means no
    /// data was pending; a transport error surfaces as an error the caller
    /// discards.
    pub fn read(&mut self) -> (r: Result<Vec<u8>, UsbError>)
        ensures
            old(self).rx@.len() == 0 ==> r == Result::<Vec<u8>, UsbError>::Err(
                UsbError::WouldBlock,
            ) && *final(self) == *old(self),
            old(self).rx@.len() > 0 ==> {
                &&& final(self).rx@ == old(self).rx@.skip(1)
                &&& *final(self) == (SerialPort { rx: final(self).rx, ..*old(self) })
                &&& (old(self).rx@[0] matches SerialEvent::Data(d) ==> (r matches Ok(p) && p@
                    == d@))
                &&& (old(self).rx@[0] is TransportError ==> r == Result::<Vec<u8>, UsbError>::Err(
                    UsbError::Transport,
                ))
            },
    {
        if self.rx.len() == 0 {
            return Err(UsbError::WouldBlock);
        }
        let ev = self.rx.remove(0);
        proof {
            assert(self.rx@ =~= old(self).rx@.skip(1));
        }
        match ev {
            SerialEvent::Data(d) => Ok(d),
            SerialEvent::TransportError => Err(UsbError::Transport),
        }
    }

    /// Return one packet of UART data to the host.
    pub fn write(&mut self, data: &Vec<u8>)
        ensures
            final(self).written@.len() == old(self).written@.len() + 1,
            final(self).written@.last()@ == data@,
            forall|i: int|
                0 <= i < old(self).written@.len() ==> final(self).written@[i] == old(self).written@[i],
            *final(self) == (SerialPort { written: final(self).written, ..*old(self) }),
    {
        let copy = crate::dap_v2::clone_bytes(data);
        self.written.push(copy);
    }

    pub fn line_coding(&self) -> (r: LineCoding)
        ensures
            r == self.line_coding,
    {
        self.line_coding
    }
}

/// Exclusive ownership of USB controller `N`, located at its register base.
pub struct UsbPeripherals<const N: u8> {
    pub base: u32,
}

/// The transport dispatcher before `setup`: it holds the controller and
/// exposes nothing else, so using the transport before initialization is
/// impossible by type.
pub struct USB<const N: u8> {
    pub periph: UsbPeripherals<N>,
}

impl<const N: u8> USB<N> {
    /// Take ownership of the USB controller.
    pub fn new(periph: UsbPeripherals<N>) -> (r: USB<N>)
        ensures
            r.periph == periph,
    {
        USB { periph }
    }

    /// Compose the device exactly once: the auxiliary serial function, the
    /// two debug-command functions and the DFU runtime register in a fixed
    /// order, so the vendor descriptor extension can name the v2 and DFU
    /// interface numbers. Consuming `self` makes a second setup, or use
    /// before setup, a type error rather than a runtime check.
    pub fn setup(self) -> (r: InitializedUSB)
        ensures
            r.device_state is Default,
            !r.endpoints_configured,
            r.serial.rx@.len() == 0,
            r.serial.written@.len() == 0,
            r.dap_v2.pending@.len() == 0,
            r.dap_v2.written@.len() == 0,
            r.dap_v2.trace_written@.len() == 0,
            !r.dap_v2.trace_busy,
            r.dap_v2.max_packet == 512,
            r.serial.comm_if == 0,
            r.serial.data_if == 1,
            r.dap_v2.interface == 3,
            r.dfu.interface == 4,
            r.dap_v2.read_ep == 3,
            r.dap_v2.write_ep == 0x84,
            r.dap_v2.trace_ep == 0x85,
            r.dap1_written@.len() == 0,
            r.dap1_max_packet == 64,
    {
        let mut alloc = UsbAllocator::new();
        let serial = SerialPort::new(&mut alloc);
        // The debug-command-v1 function: one interface, a name string and
        // its fixed 64-byte report channel in each direction.
        let _dap1_if = alloc.interface();
        let _dap1_name = alloc.string();
        let _dap1_in = alloc.bulk_in();
        let _dap1_out = alloc.bulk_out();
        let dap_v2 = CmsisDapV2::new(&mut alloc);
        let dfu_if = alloc.interface();
        let dfu_name = alloc.string();
        let dfu = DfuRuntime::new(dfu_if, dfu_name);
        InitializedUSB {
            device_state: DeviceState::Default,
            endpoints_configured: false,
            serial,
            dap_v2,
            dfu,
            dap1_max_packet: 64,
            dap1_written: Vec::new(),
        }
    }
}

/// The transport dispatcher after `setup`: one physical device composed of
/// the auxiliary serial function, the two debug-command functions and the
/// DFU runtime. `device_state` is the bus state at the previous poll, so a
/// state change is detected by comparing it with what the next poll reports.
pub struct InitializedUSB {
    pub device_state: DeviceState,
    pub endpoints_configured: bool,
    pub serial: SerialPort,
    pub dap_v2: CmsisDapV2,
    pub dfu: DfuRuntime,
    pub dap1_max_packet: u16,
    pub dap1_written: Vec<Vec<u8>>,
}

impl InitializedUSB {
    /// A bus-state transition away from Configured observed by this poll.
    pub open spec fn spec_suspend_event(&self, poll: PollEvent) -> bool {
        &&& poll.any
        &&& poll.new_state != self.device_state
        &&& !(poll.new_state is Configured)
    }

    /// Process one poll of the transport and convert it into at most one
    /// typed request.
    ///
    /// A bus-state transition is surfaced before any command processing: a
    /// transition away from Configured yields exactly one `Suspend` request
    /// and nothing else is drained in that call; a transition to Configured
    /// reconfigures endpoint buffering instead. Otherwise at most one
    /// pending debug-command packet becomes a request; otherwise, only if
    /// the serial consumer is idle, one non-blocking serial read is tried,
    /// and a transport error silently produces no request.
    pub fn interrupt(&mut self, vcp_idle: bool, poll: &PollEvent) -> (r: Option<Request>)
        ensures
            *final(self) == (InitializedUSB {
                device_state: final(self).device_state,
                endpoints_configured: final(self).endpoints_configured,
                serial: final(self).serial,
                dap_v2: final(self).dap_v2,
                ..*old(self)
            }),
            final(self).dap_v2 == (CmsisDapV2 {
                pending: final(self).dap_v2.pending,
                ..old(self).dap_v2
            }),
            final(self).serial == (SerialPort { rx: final(self).serial.rx, ..old(self).serial }),
            (old(self).spec_suspend_event(*poll) <==> (r matches Some(q) && q is Suspend)),
            !poll.any ==> r is None && *final(self) == *old(self),
            final(self).device_state == if poll.any {
                poll.new_state
            } else {
                old(self).device_state
            },
            final(self).endpoints_configured == (old(self).endpoints_configured || (poll.any
                && poll.new_state != old(self).device_state && poll.new_state is Configured)),
            old(self).spec_suspend_event(*poll) ==> *final(self) == (InitializedUSB {
                device_state: poll.new_state,
                ..*old(self)
            }),
            poll.any && !old(self).spec_suspend_event(*poll) ==> {
                let pend = old(self).dap_v2.pending@;
                let got_command = pend.len() > 0 && pend[0]@.len() > 0;
                &&& final(self).dap_v2.pending@ == if pend.len() > 0 {
                    pend.skip(1)
                } else {
                    pend
                }
                &&& final(self).dap_v2 == (CmsisDapV2 {
                    pending: final(self).dap_v2.pending,
                    ..old(self).dap_v2
                })
                &&& (got_command ==> (r matches Some(q) && q matches Request::DAP2Command(d) && d@
                    == pend[0]@) && final(self).serial == old(self).serial)
                &&& (!got_command ==> {
                    &&& (!vcp_idle ==> r is None && final(self).serial == old(self).serial)
                    &&& (vcp_idle ==> {
                        let sx = old(self).serial.rx@;
                        &&& (sx.len() == 0 ==> r is None && final(self).serial == old(self).serial)
                        &&& (sx.len() > 0 ==> {
                            &&& final(self).serial.rx@ == sx.skip(1)
                            &&& final(self).serial == (SerialPort {
                                rx: final(self).serial.rx,
                                ..old(self).serial
                            })
                            &&& (sx[0] matches SerialEvent::Data(d) ==> (r matches Some(q) && q
                                matches Request::VCPPacket(p) && p@ == d@))
                            &&& (sx[0] is TransportError ==> r is None)
                        })
                    })
                })
            },
    {
        if !poll.any {
            return None;
        }
        let old_state = self.device_state;
        let new_state = poll.new_state;
        self.device_state = new_state;
        if old_state != new_state && new_state != DeviceState::Configured {
            return Some(Request::Suspend);
        } else if old_state != new_state && new_state == DeviceState::Configured {
            self.endpoints_configured = true;
        }

        // A zero-length command packet is drained here without producing a
        // request; the engine is never invoked on it.
        let r = self.dap_v2.process();
        if r.is_some() {
            return r;
        }

        if vcp_idle {
            match self.serial.read() {
                Ok(data) => {
                    return Some(Request::VCPPacket(data));
                },
                Err(_) => {},
            }
        }
        None
    }

    /// Transmit a debug reply over the v1 report channel. A report beyond
    /// the fixed 64-byte size is a command-engine bug and is excluded, not
    /// truncated.
    pub fn dap1_reply(&mut self, data: &Vec<u8>)
        requires
            data@.len() <= old(self).dap1_max_packet,
        ensures
            final(self).dap1_written@.len() == old(self).dap1_written@.len() + 1,
            final(self).dap1_written@.last()@ == data@,
            forall|i: int|
                0 <= i < old(self).dap1_written@.len() ==> final(self).dap1_written@[i] == old(self).dap1_written@[i],
            *final(self) == (InitializedUSB { dap1_written: final(self).dap1_written, ..*old(self) }),
    {
        let copy = crate::dap_v2::clone_bytes(data);
        self.dap1_written.push(copy);
    }

    /// Transmit a debug reply over the v2 bulk reply endpoint; an oversize
    /// reply is excluded, not truncated.
    pub fn dap2_reply(&mut self, data: &Vec<u8>)
        requires
            data@.len() <= old(self).dap_v2.max_packet,
        ensures
            final(self).dap_v2.written@.len() == old(self).dap_v2.written@.len() + 1,
            final(self).dap_v2.written@.last()@ == data@,
            forall|i: int|
                0 <= i < old(self).dap_v2.written@.len() ==> final(self).dap_v2.written@[i] == old(self).dap_v2.written@[i],
            *final(self) == (InitializedUSB { dap_v2: final(self).dap_v2, ..*old(self) }),
            final(self).dap_v2 == (CmsisDapV2 {
                written: final(self).dap_v2.written,
                ..old(self).dap_v2
            }),
    {
        let r = self.dap_v2.write_packet(data);
        let _ = r;
    }

    /// True while the trace endpoint is transmitting.
    pub fn dap2_swo_is_busy(&self) -> (r: bool)
        ensures
            r == self.dap_v2.trace_busy,
    {
        self.dap_v2.trace_busy()
    }

    /// Stream captured trace data over the trace endpoint. The endpoint must
    /// be idle — the caller checks — and the packet within the endpoint
    /// size.
    pub fn dap2_stream_swo(&mut self, data: &Vec<u8>)
        requires
            !old(self).dap_v2.trace_busy,
            data@.len() <= old(self).dap_v2.max_packet,
        ensures
            final(self).dap_v2.trace_busy,
            final(self).dap_v2.trace_written@.len() == old(self).dap_v2.trace_written@.len() + 1,
            final(self).dap_v2.trace_written@.last()@ == data@,
            forall|i: int|
                0 <= i < old(self).dap_v2.trace_written@.len() ==> final(self).dap_v2.trace_written@[i] == old(self).dap_v2.trace_written@[i],
            *final(self) == (InitializedUSB { dap_v2: final(self).dap_v2, ..*old(self) }),
            final(self).dap_v2 == (CmsisDapV2 {
                trace_written: final(self).dap_v2.trace_written,
                trace_busy: true,
                ..old(self).dap_v2
            }),
    {
        let r = self.dap_v2.trace_write(data);
        let _ = r;
    }

    /// The line encoding the host last negotiated for the serial function.
    pub fn serial_line_encoding(&self) -> (r: LineCoding)
        ensures
            r == self.serial.line_coding,
    {
        self.serial.line_coding()
    }

    /// Return UART data to the host through the serial function.
    pub fn serial_return(&mut self, data: &Vec<u8>)
        ensures
            final(self).serial.written@.len() == old(self).serial.written@.len() + 1,
            final(self).serial.written@.last()@ == data@,
            *final(self) == (InitializedUSB { serial: final(self).serial, ..*old(self) }),
    {
        self.serial.write(data);
    }
}

} // verus!
