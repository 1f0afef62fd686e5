//! Emulation of a mouse and a keyboard through the kernel's virtual input
//! interface, as a library without I/O of its own.
//!
//! A virtual device is made in steps: its handle is asked for, its name and
//! its capabilities are declared, and the kernel is asked to create it. From
//! then on events are written to it as fixed-size records, and the kernel
//! shows them when a synchronization record follows. The types here decide
//! what has to be handed to the control device (control calls, writes of
//! bytes, pauses) and in which order; a driver performs those operations on
//! the real handle.
//!
//! - `codec`: the byte layout of an event record.
//! - `descriptor`: the description of a device that the kernel is given.
//! - `capability`: which event types and codes a device declares.
//! - `ops`: the operations that a device asks its driver to perform.
//! - `lifecycle`: the stages of a device's life.
//! - `motion`: the decomposition of a displacement into unit steps.
//! - `gesture`: the events that make up a press, a move, a scroll.
//! - `channel`: the queue between producers and the flusher.
//! - `virtual_device`: the mouse and keyboard, with its queue.
//! - `builder`: a plain device, written to one record at a time.
//! - `key_codes`: the numbers of event types and codes.
//! - `error`: what can go wrong.

pub mod builder;
pub mod capability;
pub mod channel;
pub mod codec;
pub mod descriptor;
pub mod error;
pub mod gesture;
pub mod key_codes;
pub mod lifecycle;
pub mod motion;
pub mod ops;
pub mod virtual_device;

pub use builder::FakeDevice;
pub use channel::ChannelSender;
pub use codec::{input_event, timeval, EventParams, WireLayout};
pub use descriptor::{input_id, uinput_user_dev, UINPUT_MAX_NAME_SIZE};
pub use error::Error;
pub use motion::{Coord, GradualMove};
pub use ops::Op;
pub use virtual_device::{Button, DeviceDefinitionType, FlusherStep, VirtualDevice};
