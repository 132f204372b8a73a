use vstd::prelude::*;

verus! {

pub const DFU_DETACH: u8 = 0;
pub const DFU_DNLOAD: u8 = 1;
pub const DFU_UPLOAD: u8 = 2;
pub const DFU_GETSTATUS: u8 = 3;
pub const DFU_CLRSTATUS: u8 = 4;
pub const DFU_GETSTATE: u8 = 5;
pub const DFU_ABORT: u8 = 6;

/// Descriptor type of the DFU functional descriptor.
pub const DFU_FUNCTIONAL_DESCRIPTOR_TYPE: u8 = 0x21;

/// Interface class/subclass/protocol advertised by the runtime function:
/// application-specific class, DFU subclass, runtime protocol.
pub const DFU_INTERFACE_CLASS: u8 = 0xFE;
pub const DFU_INTERFACE_SUBCLASS: u8 = 1;
pub const DFU_INTERFACE_PROTOCOL: u8 = 1;

/// Type of a control request, from its request-type field.
#[derive(Clone, Copy, PartialEq, Eq, Structural, Debug)]
pub enum RequestType {
    Standard,
    Class,
    Vendor,
    Reserved,
}

/// Recipient of a control request.
#[derive(Clone, Copy, PartialEq, Eq, Structural, Debug)]
pub enum Recipient {
    Device,
    Interface,
    Endpoint,
    Other,
}

/// The fields of a control request the runtime function reads.
#[derive(Clone, Copy, PartialEq, Eq, Structural, Debug)]
pub struct ControlRequest {
    pub request_type: RequestType,
    pub recipient: Recipient,
    pub index: u16,
    pub request: u8,
}

/// The decision on a device-to-host (IN) control request: leave it to other
/// functions, answer with the fixed six-byte all-zero status, or stall.
#[derive(Clone, Copy, PartialEq, Eq, Structural, Debug)]
pub enum ControlInAction {
    Ignore,
    AcceptStatus,
    Reject,
}

/// The decision on a host-to-device (OUT) control request: leave it to other
/// functions, accept it, or stall.
#[derive(Clone, Copy, PartialEq, Eq, Structural, Debug)]
pub enum ControlOutAction {
    Ignore,
    Accept,
    Reject,
}

/// The device-firmware-update runtime function: one interface whose whole
/// behaviour is its descriptor and two control requests. GETSTATUS always
/// answers the fixed six-byte zero status; DETACH is accepted but otherwise
/// a placeholder for a reboot into the bootloader; everything else stalls.
pub struct DfuRuntime {
    pub interface: u8,
    pub name: u8,
}

impl DfuRuntime {
    pub fn new(interface: u8, name: u8) -> (r: DfuRuntime)
        ensures
            r.interface == interface,
            r.name == name,
    {
        DfuRuntime { interface, name }
    }

    /// A class request addressed to this function's interface.
    pub open spec fn spec_addressed(&self, req: ControlRequest) -> bool {
        &&& req.request_type is Class
        &&& req.recipient is Interface
        &&& req.index == self.interface as u16
    }

    /// Decide a device-to-host control request: requests not addressed to
    /// this interface are ignored, GETSTATUS is answered, every other
    /// request addressed here is stalled.
    pub fn control_in(&self, req: &ControlRequest) -> (r: ControlInAction)
        ensures
            r is AcceptStatus <==> (self.spec_addressed(*req) && req.request == DFU_GETSTATUS),
            r is Ignore <==> !self.spec_addressed(*req),
            r is Reject <==> (self.spec_addressed(*req) && req.request != DFU_GETSTATUS),
    {
        if !(req.request_type == RequestType::Class && req.recipient == Recipient::Interface
            && req.index == self.interface as u16) {
            return ControlInAction::Ignore;
        }
        if req.request == DFU_GETSTATUS {
            ControlInAction::AcceptStatus
        } else {
            ControlInAction::Reject
        }
    }

    /// Decide a host-to-device control request: requests not addressed to
    /// this interface are ignored, DETACH is accepted (a no-op placeholder
    /// for the reboot-into-bootloader action), everything else is stalled.
    pub fn control_out(&self, req: &ControlRequest) -> (r: ControlOutAction)
        ensures
            r is Accept <==> (self.spec_addressed(*req) && req.request == DFU_DETACH),
            r is Ignore <==> !self.spec_addressed(*req),
            r is Reject <==> (self.spec_addressed(*req) && req.request != DFU_DETACH),
    {
        if !(req.request_type == RequestType::Class && req.recipient == Recipient::Interface
            && req.index == self.interface as u16) {
            return ControlOutAction::Ignore;
        }
        if req.request == DFU_DETACH {
            ControlOutAction::Accept
        } else {
            ControlOutAction::Reject
        }
    }

    /// The fixed six-byte all-zero status GETSTATUS is answered with.
    pub fn status_reply(&self) -> (r: Vec<u8>)
        ensures
            r@.len() == 6,
            forall|i: int| 0 <= i < 6 ==> r@[i] == 0u8,
    {
        let mut v: Vec<u8> = Vec::new();
        let mut i: usize = 0;
        while i < 6
            invariant
                i <= 6,
                v@.len() == i,
                forall|k: int| 0 <= k < i ==> v@[k] == 0u8,
            decreases 6 - i,
        {
            v.push(0);
            i += 1;
        }
        v
    }

    /// The body of the DFU functional descriptor: attributes, a detach
    /// timeout of 255 ms, a transfer size of 8 bytes, specification release
    /// 1.0, exactly as advertised on the bus.
    pub fn functional_descriptor(&self) -> (r: Vec<u8>)
        ensures
            r@ == seq![0x0Fu8, 0xFFu8, 0x00u8, 0x08u8, 0x00u8, 0x00u8, 0x01u8],
    {
        let mut v: Vec<u8> = Vec::new();
        v.push(0x0F);
        v.push(0xFF);
        v.push(0x00);
        v.push(0x08);
        v.push(0x00);
        v.push(0x00);
        v.push(0x01);
        proof {
            assert(v@ =~= seq![0x0Fu8, 0xFFu8, 0x00u8, 0x08u8, 0x00u8, 0x00u8, 0x01u8]);
        }
        v
    }
}

} // verus!
