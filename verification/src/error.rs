//! What can go wrong between finding the keyboard and updating its screen.

use vstd::prelude::*;

verus! {

/// One operation of the USB stack during a transmission.
#[derive(Debug, Clone, Copy, PartialEq, Eq, Structural)]
pub enum UsbOperation {
    /// Opening a handle to the device.
    Open,
    /// Letting the kernel driver be detached automatically.
    SetAutoDetach,
    /// Reading the device descriptor.
    ReadDeviceDescriptor,
    /// Reading a configuration descriptor.
    ReadConfigDescriptor,
    /// Claiming an interface.
    ClaimInterface,
    /// The control transfer itself.
    WriteControl,
}

/// Why a keyboard could not be set up or its screen not updated.
#[derive(Debug, Clone, Copy, PartialEq, Eq, Structural)]
pub enum KeyboardError {
    /// The screen has no pixels, or more than a frame buffer can hold.
    InvalidSize,
    /// No attached device has the wanted vendor and product identifiers.
    NotFound,
    /// The USB stack reported a failure of the named operation.
    Transport(UsbOperation),
    /// The control transfer wrote fewer bytes than the payload has.
    ShortWrite,
    /// The host's name could not be read as text.
    InvalidHostname,
    /// The text is empty, or too wide to be laid out.
    TextLayout,
}

} // verus!
