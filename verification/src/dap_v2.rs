use vstd::prelude::*;

use crate::app::Request;
use crate::usb::{UsbAllocator, UsbError};

verus! {

/// The debug-command-v2 function: a vendor-class interface with three bulk
/// endpoints — command out, reply in, trace in — each sized to the
/// protocol's 512-byte maximum packet.
///
/// The hardware queues are modelled as plain data: `pending` holds command
/// packets the host has written and the logic has not drained, oldest first
/// (the board layer or a test enters them through `host_packet_arrived`);
/// `written` and `trace_written` record every packet handed to the reply and
/// trace endpoints. `trace_busy` is set while a trace transfer is in flight
/// and cleared only by the completion notification or a bus reset.
pub struct CmsisDapV2 {
    pub interface: u8,
    pub name: u8,
    pub read_ep: u8,
    pub write_ep: u8,
    pub trace_ep: u8,
    pub max_packet: u16,
    pub pending: Vec<Vec<u8>>,
    pub written: Vec<Vec<u8>>,
    pub trace_written: Vec<Vec<u8>>,
    pub trace_busy: bool,
}

impl CmsisDapV2 {
    /// Allocate the function's interface, name string and three bulk
    /// endpoints.
    pub fn new(alloc: &mut UsbAllocator) -> (r: CmsisDapV2)
        requires
            old(alloc).next_interface < 0xFF,
            old(alloc).next_string < 0xFF,
            old(alloc).next_ep_out < 15,
            old(alloc).next_ep_in < 14,
        ensures
            r.interface == old(alloc).next_interface,
            r.name == old(alloc).next_string,
            r.read_ep == old(alloc).next_ep_out,
            r.write_ep == 0x80u8 + old(alloc).next_ep_in,
            r.trace_ep == 0x80u8 + old(alloc).next_ep_in + 1,
            r.max_packet == 512,
            r.pending@.len() == 0,
            r.written@.len() == 0,
            r.trace_written@.len() == 0,
            !r.trace_busy,
            *final(alloc) == (UsbAllocator {
                next_interface: (old(alloc).next_interface + 1) as u8,
                next_string: (old(alloc).next_string + 1) as u8,
                next_ep_out: (old(alloc).next_ep_out + 1) as u8,
                next_ep_in: (old(alloc).next_ep_in + 2) as u8,
            }),
    {
        let interface = alloc.interface();
        let name = alloc.string();
        let read_ep = alloc.bulk_out();
        let write_ep = alloc.bulk_in();
        let trace_ep = alloc.bulk_in();
        CmsisDapV2 {
            interface,
            name,
            read_ep,
            write_ep,
            trace_ep,
            max_packet: 512,
            pending: Vec::new(),
            written: Vec::new(),
            trace_written: Vec::new(),
            trace_busy: false,
        }
    }

    /// Record a command packet the host wrote to the command endpoint. The
    /// endpoint cannot deliver more than one maximum-size packet at a time.
    pub fn host_packet_arrived(&mut self, data: Vec<u8>)
        requires
            data@.len() <= old(self).max_packet,
        ensures
            final(self).pending@ == old(self).pending@.push(data),
            *final(self) == (CmsisDapV2 { pending: final(self).pending, ..*old(self) }),
    {
        self.pending.push(data);
    }

    /// Drain at most one pending command packet and convert it into a typed
    /// request. A packet of length zero is consumed but produces no request:
    /// the command engine is never invoked on it.
    pub fn process(&mut self) -> (r: Option<Request>)
        ensures
            old(self).pending@.len() == 0 ==> r is None && *final(self) == *old(self),
            old(self).pending@.len() > 0 ==> {
                &&& final(self).pending@ == old(self).pending@.skip(1)
                &&& *final(self) == (CmsisDapV2 { pending: final(self).pending, ..*old(self) })
                &&& (old(self).pending@[0]@.len() > 0 ==> (r matches Some(q) && q matches
                    Request::DAP2Command(d) && d@ == old(self).pending@[0]@))
                &&& (old(self).pending@[0]@.len() == 0 ==> r is None)
            },
    {
        if self.pending.len() == 0 {
            return None;
        }
        let packet = self.pending.remove(0);
        proof {
            assert(self.pending@ =~= old(self).pending@.skip(1));
        }
        if packet.len() > 0 {
            Some(Request::DAP2Command(packet))
        } else {
            None
        }
    }

    /// Hand a reply packet to the reply endpoint. A packet over the
    /// endpoint's maximum size is a hard error and nothing is written:
    /// oversize indicates a command-engine bug, never truncated away.
    pub fn write_packet(&mut self, data: &Vec<u8>) -> (r: Result<(), UsbError>)
        ensures
            r is Ok <==> data@.len() <= old(self).max_packet,
            data@.len() > old(self).max_packet ==> *final(self) == *old(self),
            data@.len() <= old(self).max_packet ==> {
                &&& final(self).written@.len() == old(self).written@.len() + 1
                &&& final(self).written@.last()@ == data@
                &&& forall|i: int|
                    0 <= i < old(self).written@.len() ==> final(self).written@[i] == old(self).written@[i]
                &&& *final(self) == (CmsisDapV2 { written: final(self).written, ..*old(self) })
            },
    {
        if data.len() > self.max_packet as usize {
            return Err(UsbError::BufferOverflow);
        }
        let copy = clone_bytes(data);
        self.written.push(copy);
        Ok(())
    }

    /// True while a trace transfer is in flight.
    pub fn trace_busy(&self) -> (r: bool)
        ensures
            r == self.trace_busy,
    {
        self.trace_busy
    }

    /// Hand a trace packet to the trace endpoint. While the busy flag is
    /// set, no second write is accepted and the state does not change; an
    /// oversize packet is a hard error as in `write_packet`; otherwise the
    /// packet is queued and the endpoint is busy until the completion
    /// notification.
    pub fn trace_write(&mut self, data: &Vec<u8>) -> (r: Result<(), UsbError>)
        ensures
            old(self).trace_busy ==> r == Result::<(), UsbError>::Err(UsbError::WouldBlock)
                && *final(self) == *old(self),
            !old(self).trace_busy && data@.len() > old(self).max_packet ==> r == Result::<
                (),
                UsbError,
            >::Err(UsbError::BufferOverflow) && *final(self) == *old(self),
            !old(self).trace_busy && data@.len() <= old(self).max_packet ==> {
                &&& r is Ok
                &&& final(self).trace_busy
                &&& final(self).trace_written@.len() == old(self).trace_written@.len() + 1
                &&& final(self).trace_written@.last()@ == data@
                &&& forall|i: int|
                    0 <= i < old(self).trace_written@.len() ==> final(self).trace_written@[i]
                        == old(self).trace_written@[i]
                &&& *final(self) == (CmsisDapV2 {
                    trace_written: final(self).trace_written,
                    trace_busy: true,
                    ..*old(self)
                })
            },
    {
        if self.trace_busy {
            return Err(UsbError::WouldBlock);
        }
        if data.len() > self.max_packet as usize {
            return Err(UsbError::BufferOverflow);
        }
        let copy = clone_bytes(data);
        self.trace_written.push(copy);
        self.trace_busy = true;
        Ok(())
    }

    /// A bus reset: any in-flight trace transfer is forgotten and the
    /// endpoint is writable again.
    pub fn reset(&mut self)
        ensures
            *final(self) == (CmsisDapV2 { trace_busy: false, ..*old(self) }),
    {
        self.trace_busy = false;
    }

    /// Completion notification for an IN endpoint: only the trace endpoint's
    /// completion clears the busy flag — this is the one event that makes
    /// the trace endpoint writable again.
    pub fn endpoint_in_complete(&mut self, addr: u8)
        ensures
            *final(self) == (CmsisDapV2 {
                trace_busy: old(self).trace_busy && addr != old(self).trace_ep,
                ..*old(self)
            }),
    {
        if addr == self.trace_ep {
            self.trace_busy = false;
        }
    }
}

/// A byte-for-byte copy of a packet.
pub(crate) fn clone_bytes(data: &Vec<u8>) -> (r: Vec<u8>)
    ensures
        r@ == data@,
{
    let mut r: Vec<u8> = Vec::new();
    let mut i: usize = 0;
    while i < data.len()
        invariant
            i <= data@.len(),
            r@.len() == i,
            forall|k: int| 0 <= k < i ==> r@[k] == data@[k],
        decreases data@.len() - i,
    {
        let b = data[i];
        r.push(b);
        i += 1;
    }
    proof {
        assert(r@ =~= data@);
    }
    r
}

} // verus!
