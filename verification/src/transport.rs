//! The control transfer that carries a command to the keyboard.

use crate::bits::{bytes_for, lemma_unpack_injective, unpack, zeros};
use vstd::prelude::*;

verus! {

/// The first byte of a payload that carries an image for the screen.
pub const IMAGE_COMMAND: u8 = 0x65;

/// The request code of every command.
pub const REQUEST_CODE: u8 = 0x09;

/// How long a control transfer may take, in seconds.
pub const TIMEOUT_SECS: u64 = 5;

/// The direction of a control transfer, seen from the host.
#[derive(Debug, Clone, Copy, PartialEq, Eq, Structural)]
pub enum Direction {
    In,
    Out,
}

/// Who defines the meaning of a control request.
#[derive(Debug, Clone, Copy, PartialEq, Eq, Structural)]
pub enum RequestKind {
    Standard,
    Class,
    Vendor,
    Reserved,
}

/// What a control request is addressed to.
#[derive(Debug, Clone, Copy, PartialEq, Eq, Structural)]
pub enum Recipient {
    Device,
    Interface,
    Endpoint,
    Other,
}

/// The request-type byte of a control transfer's setup packet: the direction
/// in bit 7, the kind in bits 5 and 6, the recipient in the low bits.
pub open spec fn request_type_byte(
    direction: Direction,
    kind: RequestKind,
    recipient: Recipient,
) -> u8 {
    let d: u8 = match direction {
        Direction::Out => 0x00,
        Direction::In => 0x80,
    };
    let k: u8 = match kind {
        RequestKind::Standard => 0x00,
        RequestKind::Class => 0x20,
        RequestKind::Vendor => 0x40,
        RequestKind::Reserved => 0x60,
    };
    let r: u8 = match recipient {
        Recipient::Device => 0x00,
        Recipient::Interface => 0x01,
        Recipient::Endpoint => 0x02,
        Recipient::Other => 0x03,
    };
    (d + k + r) as u8
}

/// `rusb::request_type`: the request-type byte for a direction, a kind and a
/// recipient, each of which sets bits of its own.
#[verifier::external_body]
fn request_type(direction: Direction, kind: RequestKind, recipient: Recipient) -> (byte: u8)
    ensures
        byte == request_type_byte(direction, kind, recipient),
{
    let direction = match direction {
        Direction::In => rusb::Direction::In, Direction::Out => rusb::Direction::Out,
    };
    let kind = match kind {
        RequestKind::Standard => rusb::RequestType::Standard,
        RequestKind::Class => rusb::RequestType::Class,
        RequestKind::Vendor => rusb::RequestType::Vendor,
        RequestKind::Reserved => rusb::RequestType::Reserved,
    };
    let recipient = match recipient {
        Recipient::Device => rusb::Recipient::Device, Recipient::Other => rusb::Recipient::Other,
        Recipient::Interface => rusb::Recipient::Interface,
        Recipient::Endpoint => rusb::Recipient::Endpoint,
    };
    rusb::request_type(direction, kind, recipient)
}

/// A command that the keyboard understands.
#[derive(Debug, Clone, Copy, PartialEq, Eq, Structural)]
pub enum KeyboardCommand {
    /// Sets colours.
    Colors,
    /// Sets the configuration entry `index`.
    Config { index: u16 },
    /// Shows an image on the screen.
    Oled,
}

impl KeyboardCommand {
    /// The value field of the command's control transfer.
    pub open spec fn spec_value(self) -> u16 {
        match self {
            KeyboardCommand::Colors => 0x300,
            KeyboardCommand::Config { .. } => 0x200,
            KeyboardCommand::Oled => 0x300,
        }
    }

    /// The index field of the command's control transfer.
    pub open spec fn spec_index(self) -> u16 {
        match self {
            KeyboardCommand::Colors => 0x01,
            KeyboardCommand::Config { index } => index,
            KeyboardCommand::Oled => 0x01,
        }
    }

    /// The value field of the command's control transfer.
    #[verifier::when_used_as_spec(spec_value)]
    pub fn value(self) -> (value: u16)
        ensures
            value == self.spec_value(),
    {
        match self {
            KeyboardCommand::Colors => 0x300,
            KeyboardCommand::Config { .. } => 0x200,
            KeyboardCommand::Oled => 0x300,
        }
    }

    /// The index field of the command's control transfer.
    #[verifier::when_used_as_spec(spec_index)]
    pub fn index(self) -> (index: u16)
        ensures
            index == self.spec_index(),
    {
        match self {
            KeyboardCommand::Colors => 0x01,
            KeyboardCommand::Config { index } => index,
            KeyboardCommand::Oled => 0x01,
        }
    }

    /// The control transfer that carries this command with `payload`: a class
    /// request from the host to an interface.
    pub fn transfer(self, payload: Vec<u8>) -> (transfer: ControlTransfer)
        ensures
            transfer.carries(self, payload@),
    {
        ControlTransfer {
            request_type: request_type(Direction::Out, RequestKind::Class, Recipient::Interface),
            request: REQUEST_CODE,
            value: self.value(),
            index: self.index(),
            payload,
            timeout_secs: TIMEOUT_SECS,
        }
    }
}

/// One control transfer to the keyboard, as the USB stack wants it.
#[derive(Debug, PartialEq, Eq)]
pub struct ControlTransfer {
    pub request_type: u8,
    pub request: u8,
    pub value: u16,
    pub index: u16,
    pub payload: Vec<u8>,
    pub timeout_secs: u64,
}

impl ControlTransfer {
    /// Whether this is the transfer that carries `command` with `payload`.
    pub open spec fn carries(self, command: KeyboardCommand, payload: Seq<u8>) -> bool {
        &&& self.request_type == 0x21
        &&& self.request == REQUEST_CODE
        &&& self.value == command.spec_value()
        &&& self.index == command.spec_index()
        &&& self.payload@ == payload
        &&& self.timeout_secs == TIMEOUT_SECS
    }

    /// Whether this is the transfer that shows the image `pixels`.
    pub open spec fn shows(self, pixels: Seq<bool>) -> bool {
        &&& self.carries(KeyboardCommand::Oled, self.payload@)
        &&& is_image_payload(self.payload@, pixels)
    }
}

/// The number of cleared bits that fill the last byte behind `bits` bits.
pub open spec fn padding(bits: nat) -> nat {
    (8 * bytes_for(bits) - bits) as nat
}

/// Whether `payload` carries the image `pixels`: the image command's byte,
/// then the pixels eight to a byte, most significant bit first, the last byte
/// filled up with cleared bits.
pub open spec fn is_image_payload(payload: Seq<u8>, pixels: Seq<bool>) -> bool {
    &&& payload.len() == 1 + bytes_for(pixels.len())
    &&& payload[0] == IMAGE_COMMAND
    &&& unpack(payload.skip(1)) == pixels + zeros(padding(pixels.len()))
}

/// The pixels that an image payload carries, given how many they are.
pub open spec fn decode_image(payload: Seq<u8>, count: nat) -> Seq<bool> {
    unpack(payload.skip(1)).take(count as int)
}

/// An image has one payload only.
pub proof fn lemma_image_payload_unique(a: Seq<u8>, b: Seq<u8>, pixels: Seq<bool>)
    requires
        is_image_payload(a, pixels),
        is_image_payload(b, pixels),
    ensures
        a == b,
{
    lemma_unpack_injective(a.skip(1), b.skip(1));
    assert forall|i: int| 0 <= i < a.len() implies a[i] == b[i] by {
        if i > 0 {
            assert(a[i] == a.skip(1)[i - 1]);
            assert(b[i] == b.skip(1)[i - 1]);
        }
    }
    assert(a =~= b);
}

/// Decoding an image payload gives back the image: its first byte is the
/// image command, and the bits behind it, without the padding, are the
/// pixels, whether or not they fill the last byte.
pub proof fn lemma_image_round_trip(payload: Seq<u8>, pixels: Seq<bool>)
    requires
        is_image_payload(payload, pixels),
    ensures
        payload[0] == IMAGE_COMMAND,
        decode_image(payload, pixels.len()) == pixels,
{
    assert((pixels + zeros(padding(pixels.len()))).take(pixels.len() as int) =~= pixels);
}

} // verus!
