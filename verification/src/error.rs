//! What can go wrong with a virtual device.

use vstd::prelude::*;

verus! {

/// The ways in which an operation on a virtual device fails.
#[derive(PartialEq, Eq, Structural, Copy, Clone, Debug)]
pub enum Error {
    /// The control device could not be opened: the kernel module is not
    /// loaded, or the caller may not write to it.
    OpenError,
    /// The device's name, with the zero byte that ends it, does not fit in
    /// the field that holds it.
    NameTooLong,
    /// The device's name holds a zero byte.
    NameContainsNul,
    /// A control call of the setup failed, or no control call can enable what
    /// was asked for.
    CapabilityError,
    /// A write to the handle failed.
    WriteError,
    /// The queue of pending events is full.
    QueueFull,
    /// The consumer of the queue of pending events is gone.
    ChannelClosed,
    /// The device is created already: what it is can no longer change.
    AlreadyCreated,
    /// The kind of device asked for is not provided.
    NotImplemented,
    /// A vertical move of the cursor by the smallest 32-bit number: the
    /// opposite number, which is what is written, does not exist.
    OutOfRange,
}

impl Error {
    /// A sentence for the user.
    pub fn message(&self) -> (text: String)
        ensures
            text@ == Self::message_of(*self)@,
    {
        Self::text_of(*self).to_string()
    }

    /// The text of `message`, for each error.
    pub open spec fn message_of(e: Error) -> &'static str {
        match e {
            Error::OpenError => "'uinput' module probably is not loaded. try: 'sudo modprobe uinput'",
            Error::NameTooLong => "Virtual device name is longer than maximum allowed size: 80.\nUse shorter name",
            Error::NameContainsNul => "Virtual device name holds a zero byte",
            Error::CapabilityError => "A control call failed while the device was set up",
            Error::WriteError => "Writing to the device failed",
            Error::QueueFull => "The queue of pending events is full",
            Error::ChannelClosed => "The queue of pending events is closed",
            Error::AlreadyCreated => "The device is created already",
            Error::NotImplemented => "Not implemented",
            Error::OutOfRange => "The vertical move is too large to be written",
        }
    }

    fn text_of(e: Error) -> (text: &'static str)
        ensures
            text == Self::message_of(e),
    {
        match e {
            Error::OpenError => "'uinput' module probably is not loaded. try: 'sudo modprobe uinput'",
            Error::NameTooLong => "Virtual device name is longer than maximum allowed size: 80.\nUse shorter name",
            Error::NameContainsNul => "Virtual device name holds a zero byte",
            Error::CapabilityError => "A control call failed while the device was set up",
            Error::WriteError => "Writing to the device failed",
            Error::QueueFull => "The queue of pending events is full",
            Error::ChannelClosed => "The queue of pending events is closed",
            Error::AlreadyCreated => "The device is created already",
            Error::NotImplemented => "Not implemented",
            Error::OutOfRange => "The vertical move is too large to be written",
        }
    }
}

} // verus!
