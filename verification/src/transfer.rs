//! USB control transfers for the dongle's configuration commands.
//!
//! A control transfer is described by a request-type byte (direction,
//! request kind and recipient packed into one byte), a request code, two
//! 16-bit parameter fields, a short payload and a timeout.  The dongle's
//! two configuration operations each consist of exactly two such transfers
//! sent back to back.

use vstd::prelude::*;

verus! {

/// Vendor ID of the dongle in HID proxy mode.
pub const TARGET_VENDOR_ID: u16 = 0x0a12;

/// Product ID of the dongle in HID proxy mode.
pub const TARGET_PRODUCT_ID: u16 = 0x100b;

/// Request code shared by every configuration transfer.
pub const CONFIG_REQUEST: u8 = 0;

/// Value field shared by every configuration transfer.
pub const CONFIG_VALUE: u16 = 0;

/// Index field of the first transfer of an operation.
pub const SELECT_INDEX: u16 = 9;

/// Index field of the second transfer of an operation.
pub const COMMIT_INDEX: u16 = 8;

/// Timeout of every configuration transfer, in milliseconds.
pub const TRANSFER_TIMEOUT_MS: u32 = 1000;

/// Direction of a control transfer, bit 7 of the request-type byte.
#[derive(Clone, Copy, Debug, PartialEq, Eq, Structural)]
pub enum Direction {
    /// Host to device.
    Out,
    /// Device to host.
    In,
}

/// Kind of a control request, bits 6..5 of the request-type byte.
#[derive(Clone, Copy, Debug, PartialEq, Eq, Structural)]
pub enum RequestKind {
    Standard,
    Class,
    Vendor,
}

/// Recipient of a control request, bits 4..0 of the request-type byte.
#[derive(Clone, Copy, Debug, PartialEq, Eq, Structural)]
pub enum Recipient {
    Device,
    Interface,
    Endpoint,
    Other,
}

/// Contribution of the direction to the request-type byte.
pub open spec fn spec_direction_bits(d: Direction) -> u8 {
    match d {
        Direction::Out => 0x00,
        Direction::In => 0x80,
    }
}

/// Contribution of the request kind to the request-type byte.
pub open spec fn spec_kind_bits(k: RequestKind) -> u8 {
    match k {
        RequestKind::Standard => 0x00,
        RequestKind::Class => 0x20,
        RequestKind::Vendor => 0x40,
    }
}

/// Contribution of the recipient to the request-type byte.
pub open spec fn spec_recipient_bits(r: Recipient) -> u8 {
    match r {
        Recipient::Device => 0x00,
        Recipient::Interface => 0x01,
        Recipient::Endpoint => 0x02,
        Recipient::Other => 0x03,
    }
}

/// The request-type byte.  The three fields occupy disjoint bits, so their
/// sum equals their bitwise combination.
pub open spec fn spec_request_type(d: Direction, k: RequestKind, r: Recipient) -> u8 {
    (spec_direction_bits(d) + spec_kind_bits(k) + spec_recipient_bits(r)) as u8
}

/// Packs direction, request kind and recipient into the request-type byte
/// of a control transfer.
pub fn request_type_byte(d: Direction, k: RequestKind, r: Recipient) -> (b: u8)
    ensures
        b == spec_request_type(d, k, r),
{
    let db: u8 = match d {
        Direction::Out => 0x00,
        Direction::In => 0x80,
    };
    let kb: u8 = match k {
        RequestKind::Standard => 0x00,
        RequestKind::Class => 0x20,
        RequestKind::Vendor => 0x40,
    };
    let rb: u8 = match r {
        Recipient::Device => 0x00,
        Recipient::Interface => 0x01,
        Recipient::Endpoint => 0x02,
        Recipient::Other => 0x03,
    };
    db + kb + rb
}

/// One USB control transfer, exactly as it is handed to the device.
#[derive(Debug, PartialEq, Eq)]
pub struct ControlTransfer {
    pub request_type: u8,
    pub request: u8,
    pub value: u16,
    pub index: u16,
    pub payload: Vec<u8>,
    pub timeout_ms: u32,
}

/// Mathematical image of a [`ControlTransfer`].
pub struct ControlTransferView {
    pub request_type: u8,
    pub request: u8,
    pub value: u16,
    pub index: u16,
    pub payload: Seq<u8>,
    pub timeout_ms: u32,
}

impl ControlTransfer {
    /// A field-for-field copy of the transfer.
    pub fn duplicate(&self) -> (r: ControlTransfer)
        ensures
            r@ == self@,
    {
        let n = self.payload.len();
        let mut payload: Vec<u8> = Vec::new();
        let mut i: usize = 0;
        while i < n
            invariant
                i <= n,
                n == self.payload@.len(),
                payload@ == self.payload@.take(i as int),
            decreases n - i,
        {
            payload.push(self.payload[i]);
            i = i + 1;
            proof {
                assert(payload@ =~= self.payload@.take(i as int));
            }
        }
        proof {
            assert(payload@ =~= self.payload@);
        }
        ControlTransfer {
            request_type: self.request_type,
            request: self.request,
            value: self.value,
            index: self.index,
            payload,
            timeout_ms: self.timeout_ms,
        }
    }
}

impl View for ControlTransfer {
    type V = ControlTransferView;

    open spec fn view(&self) -> ControlTransferView {
        ControlTransferView {
            request_type: self.request_type,
            request: self.request,
            value: self.value,
            index: self.index,
            payload: self.payload@,
            timeout_ms: self.timeout_ms,
        }
    }
}

/// The views of a sequence of transfers, element by element.
pub open spec fn views_of(ts: Seq<ControlTransfer>) -> Seq<ControlTransferView> {
    ts.map_values(|t: ControlTransfer| t@)
}

/// A configuration operation the dongle supports.
#[derive(Clone, Copy, Debug, PartialEq, Eq, Structural)]
pub enum Operation {
    /// Switch the dongle between HID proxy mode and HCI mode.  A power
    /// cycle is required afterwards for the change to take effect.
    ToggleMode,
    /// Clear the dongle's stored list of paired devices.
    ClearPairings,
}

/// Command code of an operation, as it appears in the payloads.
pub open spec fn spec_command_code(op: Operation) -> u8 {
    match op {
        Operation::ToggleMode => 5,
        Operation::ClearPairings => 6,
    }
}

/// The first transfer of an operation: request type host-to-device /
/// class / device, request 0, value 0, index 9, payload [0x01, code],
/// timeout one second.
pub open spec fn spec_first_transfer(op: Operation) -> ControlTransferView {
    ControlTransferView {
        request_type: spec_request_type(Direction::Out, RequestKind::Class, Recipient::Device),
        request: CONFIG_REQUEST,
        value: CONFIG_VALUE,
        index: SELECT_INDEX,
        payload: seq![1u8, spec_command_code(op)],
        timeout_ms: TRANSFER_TIMEOUT_MS,
    }
}

/// The second transfer of an operation: identical fixed parameters, but
/// index 8 and payload [code, 0x00].
pub open spec fn spec_second_transfer(op: Operation) -> ControlTransferView {
    ControlTransferView {
        request_type: spec_request_type(Direction::Out, RequestKind::Class, Recipient::Device),
        request: CONFIG_REQUEST,
        value: CONFIG_VALUE,
        index: COMMIT_INDEX,
        payload: seq![spec_command_code(op), 0u8],
        timeout_ms: TRANSFER_TIMEOUT_MS,
    }
}

/// The full two-transfer sequence of an operation, in send order.
pub open spec fn spec_operation_sequence(op: Operation) -> Seq<ControlTransferView> {
    seq![spec_first_transfer(op), spec_second_transfer(op)]
}

/// Command code of an operation.
pub fn command_code(op: Operation) -> (c: u8)
    ensures
        c == spec_command_code(op),
{
    match op {
        Operation::ToggleMode => 5,
        Operation::ClearPairings => 6,
    }
}

/// Builds the two control transfers that perform `op`, in the order they
/// must be sent.
pub fn operation_sequence(op: Operation) -> (r: Vec<ControlTransfer>)
    ensures
        views_of(r@) == spec_operation_sequence(op),
{
    let rt = request_type_byte(Direction::Out, RequestKind::Class, Recipient::Device);
    let code = command_code(op);
    let first = ControlTransfer {
        request_type: rt,
        request: CONFIG_REQUEST,
        value: CONFIG_VALUE,
        index: SELECT_INDEX,
        payload: vec![1u8, code],
        timeout_ms: TRANSFER_TIMEOUT_MS,
    };
    let second = ControlTransfer {
        request_type: rt,
        request: CONFIG_REQUEST,
        value: CONFIG_VALUE,
        index: COMMIT_INDEX,
        payload: vec![code, 0u8],
        timeout_ms: TRANSFER_TIMEOUT_MS,
    };
    let r = vec![first, second];
    proof {
        assert(views_of(r@) =~= spec_operation_sequence(op)) by {
            assert(r@[0]@ =~= spec_first_transfer(op));
            assert(r@[1]@ =~= spec_second_transfer(op));
        }
    }
    r
}

} // verus!
