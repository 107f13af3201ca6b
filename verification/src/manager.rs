//! The device manager: which messages reach its worker, what the worker does
//! on each, and what it draws.
//!
//! The callbacks of the USB stack must return at once, so a watcher only
//! names the message to post. The worker takes the messages in the order in
//! which they were posted and redraws the screen where a message asks for it.

use crate::keyboard::KeyboardInfo;
use vstd::prelude::*;

verus! {

/// A notification handed to the device manager's worker.
#[derive(Debug, Clone, Copy, PartialEq, Eq, Structural)]
pub enum Message {
    /// A matching device was plugged in.
    DeviceArrived,
    /// A matching device was unplugged.
    DeviceLeft,
    /// The screen is to be drawn again, whatever happened on the bus.
    RefreshScreen,
}

/// What the worker does next.
#[derive(Debug, Clone, Copy, PartialEq, Eq, Structural)]
pub enum Action {
    /// Look the keyboard up again and draw its screen.
    Redraw,
    /// Nothing; wait for the next message.
    Nothing,
    /// Leave the loop: no message will come any more.
    Stop,
}

impl Message {
    /// Whether the worker redraws the screen on this message: on every
    /// message but the departure of the device.
    pub open spec fn wants_redraw(self) -> bool {
        self != Message::DeviceLeft
    }
}

/// The devices that a hotplug callback is registered for: `None` stands for
/// any.
#[derive(Debug, Clone, Copy, PartialEq, Eq, Structural)]
pub struct HotplugFilter {
    pub vendor_id: Option<u16>,
    pub product_id: Option<u16>,
    pub class: Option<u8>,
}

/// The object behind the hotplug callbacks of one keyboard model. All that a
/// callback may do is to post the message that the watcher names.
#[derive(Debug, Clone, Copy)]
pub struct KeyboardWatcher {
    vendor_id: u16,
    product_id: u16,
}

impl KeyboardWatcher {
    /// The vendor identifier of the keyboards watched for.
    pub closed spec fn spec_vendor_id(self) -> u16 {
        self.vendor_id
    }

    /// The product identifier of the keyboards watched for.
    pub closed spec fn spec_product_id(self) -> u16 {
        self.product_id
    }

    /// The devices to register the callbacks for: those with the keyboard's
    /// vendor and product identifiers, of any class.
    pub fn filter(&self) -> (filter: HotplugFilter)
        ensures
            filter == (HotplugFilter {
                vendor_id: Some(self.spec_vendor_id()),
                product_id: Some(self.spec_product_id()),
                class: None,
            }),
    {
        HotplugFilter {
            vendor_id: Some(self.vendor_id),
            product_id: Some(self.product_id),
            class: None,
        }
    }

    /// The message to post when a device arrived.
    pub fn device_arrived(&mut self) -> (message: Message)
        ensures
            message == Message::DeviceArrived,
            *final(self) == *old(self),
    {
        Message::DeviceArrived
    }

    /// The message to post when a device left.
    pub fn device_left(&mut self) -> (message: Message)
        ensures
            message == Message::DeviceLeft,
            *final(self) == *old(self),
    {
        Message::DeviceLeft
    }
}

/// The manager of one keyboard model.
#[derive(Debug, Clone, Copy)]
pub struct KeyboardManager {
    keyboard_info: KeyboardInfo,
}

impl KeyboardManager {
    /// The model of the keyboards that are managed.
    pub closed spec fn spec_keyboard_info(self) -> KeyboardInfo {
        self.keyboard_info
    }

    /// The manager of the keyboards of model `keyboard_info`.
    pub fn new(keyboard_info: KeyboardInfo) -> (manager: Self)
        ensures
            manager.spec_keyboard_info() == keyboard_info,
    {
        KeyboardManager { keyboard_info }
    }

    /// The model of the keyboards that are managed.
    #[verifier::when_used_as_spec(spec_keyboard_info)]
    pub fn keyboard_info(self) -> (info: KeyboardInfo)
        ensures
            info == self.spec_keyboard_info(),
    {
        self.keyboard_info
    }

    /// The watcher to register with the USB stack.
    pub fn watcher(&self) -> (watcher: KeyboardWatcher)
        ensures
            watcher.spec_vendor_id() == self.spec_keyboard_info().spec_vendor_id(),
            watcher.spec_product_id() == self.spec_keyboard_info().spec_product_id(),
    {
        KeyboardWatcher {
            vendor_id: self.keyboard_info.vendor_id(),
            product_id: self.keyboard_info.product_id(),
        }
    }

    /// What the worker does on `message`: it redraws when a device arrived
    /// and when a refresh was asked for, and does nothing when a device left.
    pub fn handle_message(&self, message: Message) -> (action: Action)
        ensures
            message.wants_redraw() ==> action == Action::Redraw,
            !message.wants_redraw() ==> action == Action::Nothing,
    {
        match message {
            Message::DeviceArrived => Action::Redraw,
            Message::DeviceLeft => Action::Nothing,
            Message::RefreshScreen => Action::Redraw,
        }
    }

    /// What the worker does on what it received: a message is handled (see
    /// [`Self::handle_message`]); `None`, which says that no sender is left,
    /// ends the loop, and nothing else does.
    pub fn next_action(&self, received: Option<Message>) -> (action: Action)
        ensures
            received is None <==> action == Action::Stop,
            received matches Some(message) ==> action == if message.wants_redraw() {
                Action::Redraw
            } else {
                Action::Nothing
            },
    {
        match received {
            Some(message) => self.handle_message(message),
            None => Action::Stop,
        }
    }
}

} // verus!
