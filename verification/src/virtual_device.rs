//! A virtual mouse and keyboard.
//!
//! A device is set up once, when it is made: its handle is asked for, its
//! name, identity and capabilities are declared, and its creation is asked
//! for. From then on gestures add the writes that they take to the device's
//! pending operations, which a driver performs on the handle. Producers in
//! other threads can instead send events to the device's queue, which the
//! flusher drains at a fixed interval.

use crate::capability::{all_supported, calls_to_register_all, well_ordered, ControlCall};
use crate::channel::{
    bounded_queue,
    capacity_of,
    most_taken,
    receiver_capacity_of,
    drain,
    max_capacity,
    rest,
    send_each,
    send_now,
    sent_or_refused,
    ChannelReceiver,
    ChannelSender,
};
use crate::codec::{
    decoded,
    encoded_batch,
    host_layout,
    lemma_batch_length,
    lemma_batch_record,
    EventParams,
    WireLayout,
};
use crate::descriptor::{description_bytes, input_id, name_field, UINPUT_MAX_NAME_SIZE};
use crate::error::Error;
use crate::gesture::{
    gradual_move_batches,
    gradual_move_events,
    gradual_move_raw_batches,
    gradual_scroll_batches,
    gradual_scroll_events,
    gradual_scroll_raw_batches,
    key,
    rel_x,
    rel_y,
    sync,
    wheel_x,
    wheel_y,
};
use crate::key_codes::{
    BTN_LEFT,
    BTN_MIDDLE,
    BTN_RIGHT,
    EV_KEY,
    EV_REL,
    EV_SYN,
    REL_HWHEEL,
    REL_WHEEL,
    REL_X,
    REL_Y,
    SYN_REPORT,
};
use crate::lifecycle::{fresh, set_up, DeviceModel, Lifecycle, Stage};
use crate::motion::{repeated, Coord, GradualMove};
use crate::ops::{control_ops, models, write_of, writes, Op, OpModel};
use vstd::prelude::*;
use vstd::string::StringSliceAdditionalSpecFns;

verus! {

/// The code of a key or a button.
pub type Button = u16;

/// The pause between the press and the release of a click, in nanoseconds.
/// Without it those who read the device's events may see the two as one.
pub const SLEEP_BEFORE_RELEASE: u64 = 5_000_000;

/// The interval of the flusher of a device made by `default`, in
/// nanoseconds.
pub const DEFAULT_WRITING_INTERVAL: u64 = 1_000_000;

/// The capacity of the queue of a device made by `default`.
pub const DEFAULT_CHANNEL_SIZE: usize = 50;

/// What a device stands for.
#[derive(PartialEq, Eq, Structural, Copy, Clone, Debug)]
pub enum DeviceDefinitionType {
    /// A mouse and a keyboard as two devices in one: not provided.
    Separate,
    /// A mouse.
    MouseOnly,
    /// A keyboard.
    KeyboardOnly,
    /// A mouse and a keyboard in one device, without an identity.
    Combined,
}

/// What the flusher does when a cycle is over.
#[derive(PartialEq, Eq, Structural, Copy, Clone, Debug)]
pub enum FlusherStep {
    /// Rest for this many nanoseconds, then run the next cycle.
    Rest(u64),
    /// End the loop and give the device up: what is still in the queue is
    /// not written.
    Stop,
}

/// The buttons and axes of a mouse, each with its event type.
pub open spec fn mouse_capabilities() -> Seq<(u16, u16)> {
    seq![
        (EV_KEY, BTN_LEFT),
        (EV_KEY, BTN_RIGHT),
        (EV_KEY, BTN_MIDDLE),
        (EV_REL, REL_X),
        (EV_REL, REL_Y),
        (EV_REL, REL_HWHEEL),
        (EV_REL, REL_WHEEL),
    ]
}

/// The keys of a keyboard, each with its event type: the codes 1 to 254.
pub open spec fn keyboard_capabilities() -> Seq<(u16, u16)> {
    Seq::new(254, |i: int| (EV_KEY, (i + 1) as u16))
}

/// What a device of the given kind registers, in its order.
pub open spec fn capabilities_of(definition_type: DeviceDefinitionType) -> Seq<(u16, u16)> {
    match definition_type {
        DeviceDefinitionType::Separate => Seq::empty(),
        DeviceDefinitionType::MouseOnly => mouse_capabilities(),
        DeviceDefinitionType::KeyboardOnly => keyboard_capabilities(),
        DeviceDefinitionType::Combined => mouse_capabilities() + keyboard_capabilities(),
    }
}

/// The identity of a device of the given kind.
pub open spec fn identity_of(definition_type: DeviceDefinitionType) -> input_id {
    match definition_type {
        DeviceDefinitionType::MouseOnly => input_id {
            bustype: 0x0003,
            vendor: 0x045e,
            product: 0x07a5,
            version: 0x0111,
        },
        DeviceDefinitionType::KeyboardOnly => input_id {
            bustype: 0x0011,
            vendor: 0x0001,
            product: 0x0001,
            version: 0xab83,
        },
        _ => input_id { bustype: 0, vendor: 0, product: 0, version: 0 },
    }
}

/// The name of a device of the given kind.
pub open spec fn name_of(definition_type: DeviceDefinitionType) -> &'static str {
    match definition_type {
        DeviceDefinitionType::MouseOnly => "virtual-mouse",
        DeviceDefinitionType::KeyboardOnly => "virtual-keyboard",
        _ => "virtual-device",
    }
}

/// The write of a batch, and so that of a flush, holds the events in the
/// order in which they were handed over or taken from the queue, and one
/// synchronization behind them: the `i`-th record of the write, read back,
/// is the `i`-th event, the record behind the last event is a
/// synchronization, and nothing follows it.
pub proof fn lemma_flush_keeps_order(layout: WireLayout, events: Seq<EventParams>, i: int)
    requires
        0 <= i < events.len(),
    ensures
        encoded_batch(layout, events.push(sync())).len() == (events.len() + 1)
            * layout.record_len(),
        decoded(
            layout,
            encoded_batch(layout, events.push(sync())).subrange(
                i * layout.record_len(),
                (i + 1) * layout.record_len(),
            ),
        ) == Some(events[i]),
        decoded(
            layout,
            encoded_batch(layout, events.push(sync())).subrange(
                (events.len() * layout.record_len()) as int,
                ((events.len() + 1) * layout.record_len()) as int,
            ),
        ) == Some(sync()),
{
    let batch = events.push(sync());
    lemma_batch_length(layout, batch);
    lemma_batch_record(layout, batch, i);
    lemma_batch_record(layout, batch, events.len() as int);
}

/// A virtual mouse and keyboard.
pub struct VirtualDevice {
    writing_interval: u64,
    device: Lifecycle,
    pub sender: ChannelSender,
    receiver: ChannelReceiver,
}

impl View for VirtualDevice {
    type V = DeviceModel;

    closed spec fn view(&self) -> DeviceModel {
        self.device@
    }
}

fn mouse_list() -> (pairs: Vec<(u16, u16)>)
    ensures
        pairs@ == mouse_capabilities(),
{
    let mut pairs: Vec<(u16, u16)> = Vec::new();
    pairs.push((EV_KEY, BTN_LEFT));
    pairs.push((EV_KEY, BTN_RIGHT));
    pairs.push((EV_KEY, BTN_MIDDLE));
    pairs.push((EV_REL, REL_X));
    pairs.push((EV_REL, REL_Y));
    pairs.push((EV_REL, REL_HWHEEL));
    pairs.push((EV_REL, REL_WHEEL));
    assert(pairs@ =~= mouse_capabilities());
    pairs
}

fn push_keyboard(pairs: &mut Vec<(u16, u16)>)
    ensures
        final(pairs)@ == old(pairs)@ + keyboard_capabilities(),
{
    let mut code: u16 = 1;
    while code < 255
        invariant
            1 <= code <= 255,
            pairs@ =~= old(pairs)@ + keyboard_capabilities().take(code - 1),
        decreases 255 - code,
    {
        pairs.push((EV_KEY, code));
        code += 1;
    }
    assert(keyboard_capabilities().take(254) =~= keyboard_capabilities());
}

fn capability_list(definition_type: DeviceDefinitionType) -> (pairs: Vec<(u16, u16)>)
    ensures
        pairs@ == capabilities_of(definition_type),
        all_supported(pairs@),
{
    let mut pairs: Vec<(u16, u16)> = match definition_type {
        DeviceDefinitionType::MouseOnly | DeviceDefinitionType::Combined => mouse_list(),
        _ => Vec::new(),
    };
    match definition_type {
        DeviceDefinitionType::KeyboardOnly | DeviceDefinitionType::Combined => {
            push_keyboard(&mut pairs);
        },
        _ => {},
    }
    assert(pairs@ =~= capabilities_of(definition_type));
    pairs
}

fn push_repeated(out: &mut Vec<EventParams>, step: &[EventParams], times: u32)
    ensures
        final(out)@ == old(out)@ + repeated(step@, times as nat),
{
    let mut i: u32 = 0;
    assert(out@ =~= old(out)@ + repeated(step@, 0));
    while i < times
        invariant
            i <= times,
            out@ == old(out)@ + repeated(step@, i as nat),
        decreases times - i,
    {
        let ghost before = out@;
        let mut k: usize = 0;
        while k < step.len()
            invariant
                k <= step.len(),
                out@ =~= before + step@.take(k as int),
            decreases step.len() - k,
        {
            out.push(step[k]);
            k += 1;
        }
        assert(step@.take(k as int) =~= step@);
        assert(out@ =~= old(out)@ + repeated(step@, (i + 1) as nat));
        i += 1;
    }
}

/// The names of the devices are plain text that fits in the name field.
proof fn lemma_names_fit(definition_type: DeviceDefinitionType)
    ensures
        !name_of(definition_type).spec_bytes().contains(0u8),
        name_of(definition_type).spec_bytes().len() < UINPUT_MAX_NAME_SIZE,
{
    reveal_strlit("virtual-mouse");
    reveal_strlit("virtual-keyboard");
    reveal_strlit("virtual-device");
    let name = name_of(definition_type);
    assert(vstd::string::is_ascii(name));
    vstd::string::is_ascii_spec_bytes(name);
    assert forall|i: int| 0 <= i < name.spec_bytes().len() implies name.spec_bytes()[i] != 0u8 by {
        assert(name.spec_bytes()[i] == name@[i] as u8);
    }
}

impl VirtualDevice {
    /// Whether the parts of the device agree with one another.
    pub closed spec fn consistent(self) -> bool {
        &&& self.device.consistent()
        &&& receiver_capacity_of(self.receiver) == capacity_of(self.sender)
    }

    /// The invariant of a device.
    pub open spec fn wf(self) -> bool {
        &&& well_ordered(self@.issued)
        &&& self.consistent()
    }

    /// The interval of the flusher, in nanoseconds.
    pub closed spec fn interval(self) -> u64 {
        self.writing_interval
    }

    /// The end of the device's queue that producers send to.
    pub closed spec fn sender_end(self) -> ChannelSender {
        self.sender
    }

    /// The number of events that the queue of the device holds at most.
    pub closed spec fn queue_capacity(self) -> Option<usize> {
        capacity_of(self.sender)
    }

    /// Whether the device has the queue of `before`.
    pub closed spec fn same_queue(self, before: VirtualDevice) -> bool {
        self.sender == before.sender && self.receiver == before.receiver
    }

    /// Whether the device is `before` at a later moment: a device with the
    /// interval and the queue of `before`.
    pub open spec fn continues(self, before: VirtualDevice) -> bool {
        &&& self.wf()
        &&& self.interval() == before.interval()
        &&& self.same_queue(before)
        &&& self.sender_end() == before.sender_end()
        &&& self.queue_capacity() == before.queue_capacity()
    }

    /// A device whose handle is asked for, with records of the layout
    /// `layout`, an empty description and no capabilities, a flusher of the
    /// interval `writing_interval`, in nanoseconds, and a queue for
    /// `channel_size` events.
    pub fn open(writing_interval: u64, channel_size: usize, layout: WireLayout) -> (device: Self)
        requires
            channel_size <= max_capacity(),
        ensures
            device.wf(),
            device.interval() == writing_interval,
            device.queue_capacity() == Some(channel_size),
            device@.description.is_zeroed(),
            device@ == fresh(layout, device@.description),
    {
        let (sender, receiver) = bounded_queue(channel_size);
        VirtualDevice { writing_interval, device: Lifecycle::open(layout), sender, receiver }
    }

    /// A device of the given kind, set up, with records of the layout
    /// `layout`, a flusher of the interval `writing_interval`, in
    /// nanoseconds, and a queue for `channel_size` events.
    ///
    /// Two devices in one are not provided.
    pub fn with_layout(
        writing_interval: u64,
        channel_size: usize,
        definition_type: DeviceDefinitionType,
        layout: WireLayout,
    ) -> (r: Result<Self, Error>)
        requires
            channel_size <= max_capacity(),
        ensures
            definition_type == DeviceDefinitionType::Separate ==> r is Err && r->Err_0
                == Error::NotImplemented,
            definition_type != DeviceDefinitionType::Separate ==> r is Ok,
            r matches Ok(device) ==> device.wf() && device.interval() == writing_interval
                && device.queue_capacity() == Some(channel_size) && device@.layout == layout
                && set_up(
                device@,
                name_of(definition_type).spec_bytes(),
                identity_of(definition_type),
                capabilities_of(definition_type),
            ),
    {
        let device_name: &str = match definition_type {
            DeviceDefinitionType::Separate => {
                return Err(Error::NotImplemented);
            },
            DeviceDefinitionType::MouseOnly => "virtual-mouse",
            DeviceDefinitionType::KeyboardOnly => "virtual-keyboard",
            DeviceDefinitionType::Combined => "virtual-device",
        };
        let id = match definition_type {
            DeviceDefinitionType::MouseOnly => input_id {
                bustype: 0x0003,
                vendor: 0x045e,
                product: 0x07a5,
                version: 0x0111,
            },
            DeviceDefinitionType::KeyboardOnly => input_id {
                bustype: 0x0011,
                vendor: 0x0001,
                product: 0x0001,
                version: 0xab83,
            },
            _ => input_id { bustype: 0, vendor: 0, product: 0, version: 0 },
        };
        let mut virtual_device = Self::open(writing_interval, channel_size, layout);
        proof {
            lemma_names_fit(definition_type);
        }
        let identified = virtual_device.device.set_identity(id);
        let named = virtual_device.device.set_name(device_name);
        assert(identified is Ok && named is Ok);
        let capabilities = capability_list(definition_type);
        let registered = virtual_device.device.register_all(capabilities.as_slice());
        assert(registered is Ok);
        let created = virtual_device.device.create();
        assert(created is Ok);
        proof {
            let description = virtual_device@.description;
            let calls = calls_to_register_all(Seq::empty(), capabilities_of(definition_type));
            assert(description.name@ =~= name_field(
                Seq::new(UINPUT_MAX_NAME_SIZE as nat, |i: int| 0i8),
                name_of(definition_type).spec_bytes(),
            ));
            assert(virtual_device@.issued =~= calls);
            assert(virtual_device@.pending =~= seq![OpModel::Open] + control_ops(calls) + seq![
                OpModel::Write(description_bytes(layout.order, description)),
                OpModel::Control(ControlCall::Create),
            ]);
        }
        Ok(virtual_device)
    }

    /// A device of the given kind, set up, with records of the layout of
    /// this machine, a flusher of the interval `writing_interval`, in
    /// nanoseconds, and a queue for `channel_size` events.
    ///
    /// Two devices in one are not provided.
    pub fn new(
        writing_interval: u64,
        channel_size: usize,
        definition_type: DeviceDefinitionType,
    ) -> (r: Result<Self, Error>)
        requires
            channel_size <= max_capacity(),
        ensures
            definition_type == DeviceDefinitionType::Separate ==> r is Err && r->Err_0
                == Error::NotImplemented,
            definition_type != DeviceDefinitionType::Separate ==> r is Ok,
            r matches Ok(device) ==> device.wf() && device.interval() == writing_interval
                && device.queue_capacity() == Some(channel_size) && device@.layout
                == host_layout() && set_up(
                device@,
                name_of(definition_type).spec_bytes(),
                identity_of(definition_type),
                capabilities_of(definition_type),
            ),
    {
        Self::with_layout(writing_interval, channel_size, definition_type, WireLayout::host())
    }

    /// A mouse and keyboard in one device, with a flusher that runs every
    /// millisecond and a queue for 50 events.
    pub fn default() -> (r: Result<Self, Error>)
        ensures
            r is Ok,
            r matches Ok(device) ==> device.wf() && device.interval() == DEFAULT_WRITING_INTERVAL
                && device.queue_capacity() == Some(DEFAULT_CHANNEL_SIZE) && device@.layout
                == host_layout() && set_up(
                device@,
                name_of(DeviceDefinitionType::Combined).spec_bytes(),
                identity_of(DeviceDefinitionType::Combined),
                capabilities_of(DeviceDefinitionType::Combined),
            ),
    {
        Self::default_single_device(DeviceDefinitionType::Combined)
    }

    fn default_single_device(definition_type: DeviceDefinitionType) -> (r: Result<Self, Error>)
        ensures
            definition_type == DeviceDefinitionType::Separate ==> r is Err && r->Err_0
                == Error::NotImplemented,
            definition_type != DeviceDefinitionType::Separate ==> r is Ok,
            r matches Ok(device) ==> device.wf() && device.interval() == DEFAULT_WRITING_INTERVAL
                && device.queue_capacity() == Some(DEFAULT_CHANNEL_SIZE) && device@.layout
                == host_layout() && set_up(
                device@,
                name_of(definition_type).spec_bytes(),
                identity_of(definition_type),
                capabilities_of(definition_type),
            ),
    {
        Self::new(DEFAULT_WRITING_INTERVAL, DEFAULT_CHANNEL_SIZE, definition_type)
    }

    /// A mouse and a keyboard as two devices, the mouse first, each with a
    /// flusher that runs every millisecond and a queue for 50 events.
    pub fn default_separate() -> (r: Result<(Self, Self), Error>)
        ensures
            r is Ok,
            r matches Ok(devices) ==> devices.0.wf() && devices.1.wf() && devices.0.interval()
                == DEFAULT_WRITING_INTERVAL && devices.1.interval() == DEFAULT_WRITING_INTERVAL
                && devices.0.queue_capacity() == Some(DEFAULT_CHANNEL_SIZE)
                && devices.1.queue_capacity() == Some(DEFAULT_CHANNEL_SIZE) && devices.0@.layout
                == host_layout() && devices.1@.layout == host_layout() && set_up(
                devices.0@,
                name_of(DeviceDefinitionType::MouseOnly).spec_bytes(),
                identity_of(DeviceDefinitionType::MouseOnly),
                capabilities_of(DeviceDefinitionType::MouseOnly),
            ) && set_up(
                devices.1@,
                name_of(DeviceDefinitionType::KeyboardOnly).spec_bytes(),
                identity_of(DeviceDefinitionType::KeyboardOnly),
                capabilities_of(DeviceDefinitionType::KeyboardOnly),
            ),
    {
        let mouse = Self::default_single_device(DeviceDefinitionType::MouseOnly)?;
        let keyboard = Self::default_single_device(DeviceDefinitionType::KeyboardOnly)?;
        Ok((mouse, keyboard))
    }

    /// The stage of the device's life.
    pub fn stage(&self) -> (stage: Stage)
        ensures
            stage == self@.stage,
    {
        self.device.stage()
    }

    /// The layout of the records that the device writes.
    pub fn layout(&self) -> (layout: WireLayout)
        ensures
            layout == self@.layout,
    {
        self.device.layout()
    }

    /// The end of the device's queue that producers send to.
    pub fn queue(&self) -> (sender: &ChannelSender)
        ensures
            *sender == self.sender_end(),
            capacity_of(*sender) == self.queue_capacity(),
    {
        &self.sender
    }

    /// The interval of the flusher, in nanoseconds.
    pub fn writing_interval(&self) -> (nanos: u64)
        ensures
            nanos == self.interval(),
    {
        self.writing_interval
    }

    /// Declares the name of the device.
    ///
    /// Refused once the device is created. A name that holds a zero byte is
    /// refused, and so is one of more than 79 bytes: with the zero byte that
    /// ends it, it does not fit in its field. On an error the device is left
    /// as it was.
    pub fn set_name(&mut self, value: &str) -> (r: Result<(), Error>)
        requires
            old(self).wf(),
        ensures
            final(self).continues(*old(self)),
            old(self)@.is_settled() ==> r == Err::<(), Error>(Error::AlreadyCreated),
            !old(self)@.is_settled() && value.spec_bytes().contains(0u8) ==> r == Err::<(), Error>(
                Error::NameContainsNul,
            ),
            !old(self)@.is_settled() && !value.spec_bytes().contains(0u8)
                && value.spec_bytes().len() >= UINPUT_MAX_NAME_SIZE ==> r == Err::<(), Error>(
                Error::NameTooLong,
            ),
            !old(self)@.is_settled() && !value.spec_bytes().contains(0u8)
                && value.spec_bytes().len() < UINPUT_MAX_NAME_SIZE ==> r is Ok,
            r is Err ==> final(self)@ == old(self)@,
            r is Ok ==> final(self)@ == (DeviceModel {
                stage: Stage::Registered,
                description: final(self)@.description,
                ..old(self)@
            }),
            r is Ok ==> final(self)@.description.name@ == name_field(
                old(self)@.description.name@,
                value.spec_bytes(),
            ),
            final(self)@.description.id == old(self)@.description.id,
            final(self)@.description.ff_effects_max == old(self)@.description.ff_effects_max,
            final(self)@.description.absmax == old(self)@.description.absmax,
            final(self)@.description.absmin == old(self)@.description.absmin,
            final(self)@.description.absfuzz == old(self)@.description.absfuzz,
            final(self)@.description.absflat == old(self)@.description.absflat,
    {
        self.device.set_name(value)
    }

    /// Asks for the creation of the device: its description is written to
    /// the handle in one write, then the creating control call is issued.
    /// From here on what the device is cannot change.
    ///
    /// Refused once the device is created; the device is then left as it was.
    pub fn create(&mut self) -> (r: Result<(), Error>)
        requires
            old(self).wf(),
        ensures
            final(self).continues(*old(self)),
            old(self)@.is_settled() ==> r == Err::<(), Error>(Error::AlreadyCreated) && final(self)@
                == old(self)@,
            !old(self)@.is_settled() ==> r is Ok && final(self)@ == old(self)@.created(),
    {
        self.device.create()
    }

    /// Asks for the destruction of the device, unless that was done before:
    /// the destroying control call is issued once in a device's life, from
    /// whatever stage.
    pub fn destroy(&mut self)
        requires
            old(self).wf(),
        ensures
            final(self).continues(*old(self)),
            final(self)@ == old(self)@.destroyed(),
    {
        self.device.destroy()
    }

    /// Hands the pending operations to the driver, in their order, and
    /// leaves none pending.
    pub fn take_pending(&mut self) -> (ops: Vec<Op>)
        requires
            old(self).wf(),
        ensures
            final(self).continues(*old(self)),
            models(ops@) == old(self)@.pending,
            final(self)@ == (DeviceModel { pending: Seq::<OpModel>::empty(), ..old(self)@ }),
    {
        self.device.take_pending()
    }

    fn write_records(&mut self, batch: &[EventParams]) -> (r: Result<(), Error>)
        requires
            old(self).wf(),
        ensures
            final(self).continues(*old(self)),
            old(self)@.writing(final(self)@, r, write_of(old(self)@.layout, batch@)),
    {
        self.device.emit(batch)
    }

    fn write(&mut self, kind: u16, code: u16, value: i32) -> (r: Result<(), Error>)
        requires
            old(self).wf(),
        ensures
            final(self).continues(*old(self)),
            old(self)@.writing(
                final(self)@,
                r,
                write_of(old(self)@.layout, seq![(kind, code, value)]),
            ),
    {
        let batch: [EventParams; 1] = [(kind, code, value)];
        assert(batch@ =~= seq![(kind, code, value)]);
        self.device.emit(batch.as_slice())
    }

    /// Writes a synchronization.
    pub fn synchronize(&mut self) -> (r: Result<(), Error>)
        requires
            old(self).wf(),
        ensures
            final(self).continues(*old(self)),
            old(self)@.writing(final(self)@, r, write_of(old(self)@.layout, seq![sync()])),
    {
        self.write(EV_SYN, SYN_REPORT, 0)
    }

    /// Writes a move of the cursor by `x` to the right, without a
    /// synchronization.
    pub fn move_mouse_raw_x(&mut self, x: Coord) -> (r: Result<(), Error>)
        requires
            old(self).wf(),
        ensures
            final(self).continues(*old(self)),
            old(self)@.writing(final(self)@, r, write_of(old(self)@.layout, seq![rel_x(x)])),
    {
        self.write(EV_REL, REL_X, x)
    }

    /// Writes a move of the cursor by `y` upwards, without a
    /// synchronization.
    pub fn move_mouse_raw_y(&mut self, y: Coord) -> (r: Result<(), Error>)
        requires
            old(self).wf(),
        ensures
            final(self).continues(*old(self)),
            y == i32::MIN ==> r == Err::<(), Error>(Error::OutOfRange) && final(self)@ == old(
                self,
            )@,
            y > i32::MIN ==> old(self)@.writing(
                final(self)@,
                r,
                write_of(old(self)@.layout, seq![rel_y(y)]),
            ),
    {
        if y == i32::MIN {
            return Err(Error::OutOfRange);
        }
        self.write(EV_REL, REL_Y, -y)
    }

    /// Writes a move of the cursor by `x` to the right and `y` upwards in
    /// one write, without a synchronization.
    pub fn move_mouse_raw(&mut self, x: Coord, y: Coord) -> (r: Result<(), Error>)
        requires
            old(self).wf(),
        ensures
            final(self).continues(*old(self)),
            y == i32::MIN ==> r == Err::<(), Error>(Error::OutOfRange) && final(self)@ == old(
                self,
            )@,
            y > i32::MIN ==> old(self)@.writing(
                final(self)@,
                r,
                write_of(old(self)@.layout, seq![rel_x(x), rel_y(y)]),
            ),
    {
        if y == i32::MIN {
            return Err(Error::OutOfRange);
        }
        let batch: [EventParams; 2] = [(EV_REL, REL_X, x), (EV_REL, REL_Y, -y)];
        assert(batch@ =~= seq![rel_x(x), rel_y(y)]);
        self.write_records(batch.as_slice())
    }

    /// The events of a move of the cursor by `x` to the right, with the
    /// synchronization that ends it.
    pub fn buffered_move_mouse_x(&self, x: Coord) -> (events: Vec<EventParams>)
        ensures
            events@ == seq![rel_x(x), sync()],
    {
        let mut events: Vec<EventParams> = Vec::new();
        events.push((EV_REL, REL_X, x));
        events.push(syn_params());
        assert(events@ =~= seq![rel_x(x), sync()]);
        events
    }

    /// The events of a move of the cursor by `y` upwards, with the
    /// synchronization that ends it.
    pub fn buffered_move_mouse_y(&self, y: Coord) -> (events: Vec<EventParams>)
        requires
            y > i32::MIN,
        ensures
            events@ == seq![rel_y(y), sync()],
    {
        let mut events: Vec<EventParams> = Vec::new();
        events.push((EV_REL, REL_Y, -y));
        events.push(syn_params());
        assert(events@ =~= seq![rel_y(y), sync()]);
        events
    }

    /// The events of a move of the cursor by `x` to the right and `y`
    /// upwards, with the synchronization that ends it.
    pub fn buffered_move_mouse(&self, x: Coord, y: Coord) -> (events: Vec<EventParams>)
        requires
            y > i32::MIN,
        ensures
            events@ == seq![rel_x(x), rel_y(y), sync()],
    {
        let mut events: Vec<EventParams> = Vec::new();
        events.push((EV_REL, REL_X, x));
        events.push((EV_REL, REL_Y, -y));
        events.push(syn_params());
        assert(events@ =~= seq![rel_x(x), rel_y(y), sync()]);
        events
    }

    /// Moves the cursor by `(x, y)` in unit steps, diagonal ones first, each
    /// step in a write of its own, and synchronizes once at the end.
    pub fn gradual_move_mouse_raw(&mut self, x: Coord, y: Coord) -> (r: Result<(), Error>)
        requires
            old(self).wf(),
        ensures
            final(self).continues(*old(self)),
            old(self)@.writing(
                final(self)@,
                r,
                writes(old(self)@.layout, gradual_move_raw_batches(x, y)),
            ),
    {
        let g = GradualMove::calculate(x, y);
        let diagonal: [EventParams; 2] = [
            (EV_REL, REL_X, g.x_direction),
            (EV_REL, REL_Y, -g.y_direction),
        ];
        let along_x: [EventParams; 1] = [(EV_REL, REL_X, g.x_direction)];
        let along_y: [EventParams; 1] = [(EV_REL, REL_Y, -g.y_direction)];
        let end: [EventParams; 1] = [syn_params()];
        self.device.emit_repeated(diagonal.as_slice(), g.both_move)?;
        self.device.emit_repeated(along_x.as_slice(), g.move_only_x)?;
        self.device.emit_repeated(along_y.as_slice(), g.move_only_y)?;
        self.device.emit(end.as_slice())?;
        proof {
            let layout = old(self)@.layout;
            let first = repeated(seq![diagonal@], g.both_move as nat);
            let second = repeated(seq![along_x@], g.move_only_x as nat);
            let third = repeated(seq![along_y@], g.move_only_y as nat);
            assert(diagonal@ =~= seq![rel_x(g.x_direction), rel_y(g.y_direction)]);
            assert(along_x@ =~= seq![rel_x(g.x_direction)]);
            assert(along_y@ =~= seq![rel_y(g.y_direction)]);
            assert(end@ =~= seq![sync()]);
            assert(gradual_move_raw_batches(x, y) =~= first + second + third + seq![end@]);
            assert(writes(layout, first + second + third + seq![end@]) =~= writes(layout, first)
                + writes(layout, second) + writes(layout, third) + write_of(layout, end@));
            assert(self@.pending =~= old(self)@.wrote(gradual_move_raw_batches(x, y)).pending);
        }
        Ok(())
    }

    /// Moves the cursor by `(x, y)` in unit steps, diagonal ones first, each
    /// step in a write of its own that ends with a synchronization.
    pub fn gradual_move_mouse(&mut self, x: Coord, y: Coord) -> (r: Result<(), Error>)
        requires
            old(self).wf(),
        ensures
            final(self).continues(*old(self)),
            old(self)@.writing(
                final(self)@,
                r,
                writes(old(self)@.layout, gradual_move_batches(x, y)),
            ),
    {
        let g = GradualMove::calculate(x, y);
        let diagonal: [EventParams; 3] = [
            (EV_REL, REL_X, g.x_direction),
            (EV_REL, REL_Y, -g.y_direction),
            syn_params(),
        ];
        let along_x: [EventParams; 2] = [(EV_REL, REL_X, g.x_direction), syn_params()];
        let along_y: [EventParams; 2] = [(EV_REL, REL_Y, -g.y_direction), syn_params()];
        self.device.emit_repeated(diagonal.as_slice(), g.both_move)?;
        self.device.emit_repeated(along_x.as_slice(), g.move_only_x)?;
        self.device.emit_repeated(along_y.as_slice(), g.move_only_y)?;
        proof {
            let layout = old(self)@.layout;
            let first = repeated(seq![diagonal@], g.both_move as nat);
            let second = repeated(seq![along_x@], g.move_only_x as nat);
            let third = repeated(seq![along_y@], g.move_only_y as nat);
            assert(diagonal@ =~= seq![rel_x(g.x_direction), rel_y(g.y_direction), sync()]);
            assert(along_x@ =~= seq![rel_x(g.x_direction), sync()]);
            assert(along_y@ =~= seq![rel_y(g.y_direction), sync()]);
            assert(gradual_move_batches(x, y) =~= first + second + third);
            assert(writes(layout, first + second + third) =~= writes(layout, first) + writes(
                layout,
                second,
            ) + writes(layout, third));
            assert(self@.pending =~= old(self)@.wrote(gradual_move_batches(x, y)).pending);
        }
        Ok(())
    }

    /// Moves the cursor by `(x, y)` smoothly: in unit steps that the kernel
    /// shows one by one, each step in a write of its own that ends with a
    /// synchronization.
    pub fn smooth_move_mouse(&mut self, x: Coord, y: Coord) -> (r: Result<(), Error>)
        requires
            old(self).wf(),
        ensures
            final(self).continues(*old(self)),
            old(self)@.writing(
                final(self)@,
                r,
                writes(old(self)@.layout, gradual_move_batches(x, y)),
            ),
    {
        self.gradual_move_mouse(x, y)
    }

    /// The events of a move of the cursor by `(x, y)` in unit steps, diagonal
    /// ones first, each step followed by a synchronization.
    pub fn buffered_gradual_move_mouse(&self, x: Coord, y: Coord) -> (events: Vec<EventParams>)
        ensures
            events@ == gradual_move_events(x, y),
    {
        let mut write_buffer: Vec<EventParams> = Vec::new();
        let g = GradualMove::calculate(x, y);
        let diagonal: [EventParams; 3] = [
            (EV_REL, REL_X, g.x_direction),
            (EV_REL, REL_Y, -g.y_direction),
            syn_params(),
        ];
        let along_x: [EventParams; 2] = [(EV_REL, REL_X, g.x_direction), syn_params()];
        let along_y: [EventParams; 2] = [(EV_REL, REL_Y, -g.y_direction), syn_params()];
        push_repeated(&mut write_buffer, diagonal.as_slice(), g.both_move);
        push_repeated(&mut write_buffer, along_x.as_slice(), g.move_only_x);
        push_repeated(&mut write_buffer, along_y.as_slice(), g.move_only_y);
        proof {
            assert(diagonal@ =~= seq![rel_x(g.x_direction), rel_y(g.y_direction), sync()]);
            assert(along_x@ =~= seq![rel_x(g.x_direction), sync()]);
            assert(along_y@ =~= seq![rel_y(g.y_direction), sync()]);
            assert(write_buffer@ =~= gradual_move_events(x, y));
        }
        write_buffer
    }

    /// Writes a move of the cursor by `x` to the right and the
    /// synchronization that ends it, in one write.
    pub fn move_mouse_x(&mut self, x: Coord) -> (r: Result<(), Error>)
        requires
            old(self).wf(),
        ensures
            final(self).continues(*old(self)),
            old(self)@.writing(
                final(self)@,
                r,
                write_of(old(self)@.layout, seq![rel_x(x), sync()]),
            ),
    {
        let batch: [EventParams; 2] = [(EV_REL, REL_X, x), syn_params()];
        assert(batch@ =~= seq![rel_x(x), sync()]);
        self.write_records(batch.as_slice())
    }

    /// Writes a move of the cursor by `y` upwards and the synchronization
    /// that ends it, in one write.
    pub fn move_mouse_y(&mut self, y: Coord) -> (r: Result<(), Error>)
        requires
            old(self).wf(),
        ensures
            final(self).continues(*old(self)),
            y == i32::MIN ==> r == Err::<(), Error>(Error::OutOfRange) && final(self)@ == old(
                self,
            )@,
            y > i32::MIN ==> old(self)@.writing(
                final(self)@,
                r,
                write_of(old(self)@.layout, seq![rel_y(y), sync()]),
            ),
    {
        if y == i32::MIN {
            return Err(Error::OutOfRange);
        }
        let batch: [EventParams; 2] = [(EV_REL, REL_Y, -y), syn_params()];
        assert(batch@ =~= seq![rel_y(y), sync()]);
        self.write_records(batch.as_slice())
    }

    /// Writes a move of the cursor by `x` to the right and `y` upwards and
    /// the synchronization that ends it, in one write.
    pub fn move_mouse(&mut self, x: Coord, y: Coord) -> (r: Result<(), Error>)
        requires
            old(self).wf(),
        ensures
            final(self).continues(*old(self)),
            y == i32::MIN ==> r == Err::<(), Error>(Error::OutOfRange) && final(self)@ == old(
                self,
            )@,
            y > i32::MIN ==> old(self)@.writing(
                final(self)@,
                r,
                write_of(old(self)@.layout, seq![rel_x(x), rel_y(y), sync()]),
            ),
    {
        if y == i32::MIN {
            return Err(Error::OutOfRange);
        }
        let batch: [EventParams; 3] = [(EV_REL, REL_X, x), (EV_REL, REL_Y, -y), syn_params()];
        assert(batch@ =~= seq![rel_x(x), rel_y(y), sync()]);
        self.write_records(batch.as_slice())
    }

    /// Writes a turn of the horizontal wheel by `value`, without a
    /// synchronization.
    pub fn scroll_raw_x(&mut self, value: Coord) -> (r: Result<(), Error>)
        requires
            old(self).wf(),
        ensures
            final(self).continues(*old(self)),
            old(self)@.writing(final(self)@, r, write_of(old(self)@.layout, seq![wheel_x(value)])),
    {
        self.write(EV_REL, REL_HWHEEL, value)
    }

    /// Writes a turn of the vertical wheel by `value`, without a
    /// synchronization.
    pub fn scroll_raw_y(&mut self, value: Coord) -> (r: Result<(), Error>)
        requires
            old(self).wf(),
        ensures
            final(self).continues(*old(self)),
            old(self)@.writing(final(self)@, r, write_of(old(self)@.layout, seq![wheel_y(value)])),
    {
        self.write(EV_REL, REL_WHEEL, value)
    }

    /// The events of a turn of the horizontal wheel by `value`, with the
    /// synchronization that ends it.
    pub fn buffered_scroll_x(&self, value: Coord) -> (events: Vec<EventParams>)
        ensures
            events@ == seq![wheel_x(value), sync()],
    {
        let mut events: Vec<EventParams> = Vec::new();
        events.push((EV_REL, REL_HWHEEL, value));
        events.push(syn_params());
        assert(events@ =~= seq![wheel_x(value), sync()]);
        events
    }

    /// The events of a turn of the vertical wheel by `value`, with the
    /// synchronization that ends it.
    pub fn buffered_scroll_y(&self, value: Coord) -> (events: Vec<EventParams>)
        ensures
            events@ == seq![wheel_y(value), sync()],
    {
        let mut events: Vec<EventParams> = Vec::new();
        events.push((EV_REL, REL_WHEEL, value));
        events.push(syn_params());
        assert(events@ =~= seq![wheel_y(value), sync()]);
        events
    }

    /// Writes a turn of the horizontal wheel by `value` and the
    /// synchronization that ends it, in one write.
    pub fn scroll_x(&mut self, value: Coord) -> (r: Result<(), Error>)
        requires
            old(self).wf(),
        ensures
            final(self).continues(*old(self)),
            old(self)@.writing(
                final(self)@,
                r,
                write_of(old(self)@.layout, seq![wheel_x(value), sync()]),
            ),
    {
        let batch: [EventParams; 2] = [(EV_REL, REL_HWHEEL, value), syn_params()];
        assert(batch@ =~= seq![wheel_x(value), sync()]);
        self.write_records(batch.as_slice())
    }

    /// Writes a turn of the vertical wheel by `value` and the
    /// synchronization that ends it, in one write.
    pub fn scroll_y(&mut self, value: Coord) -> (r: Result<(), Error>)
        requires
            old(self).wf(),
        ensures
            final(self).continues(*old(self)),
            old(self)@.writing(
                final(self)@,
                r,
                write_of(old(self)@.layout, seq![wheel_y(value), sync()]),
            ),
    {
        let batch: [EventParams; 2] = [(EV_REL, REL_WHEEL, value), syn_params()];
        assert(batch@ =~= seq![wheel_y(value), sync()]);
        self.write_records(batch.as_slice())
    }

    /// Scrolls by `(x, y)` in unit turns, those of both wheels first, each
    /// turn of a wheel in a write of its own, and synchronizes once at the
    /// end.
    pub fn gradual_scroll_raw(&mut self, x: Coord, y: Coord) -> (r: Result<(), Error>)
        requires
            old(self).wf(),
        ensures
            final(self).continues(*old(self)),
            old(self)@.writing(
                final(self)@,
                r,
                writes(old(self)@.layout, gradual_scroll_raw_batches(x, y)),
            ),
    {
        let g = GradualMove::calculate(x, y);
        let along_x: [EventParams; 1] = [(EV_REL, REL_HWHEEL, g.x_direction)];
        let along_y: [EventParams; 1] = [(EV_REL, REL_WHEEL, g.y_direction)];
        let end: [EventParams; 1] = [syn_params()];
        self.device.emit_pair_repeated(along_x.as_slice(), along_y.as_slice(), g.both_move)?;
        self.device.emit_repeated(along_x.as_slice(), g.move_only_x)?;
        self.device.emit_repeated(along_y.as_slice(), g.move_only_y)?;
        self.device.emit(end.as_slice())?;
        proof {
            let layout = old(self)@.layout;
            let first = repeated(seq![along_x@, along_y@], g.both_move as nat);
            let second = repeated(seq![along_x@], g.move_only_x as nat);
            let third = repeated(seq![along_y@], g.move_only_y as nat);
            assert(along_x@ =~= seq![wheel_x(g.x_direction)]);
            assert(along_y@ =~= seq![wheel_y(g.y_direction)]);
            assert(end@ =~= seq![sync()]);
            assert(gradual_scroll_raw_batches(x, y) =~= first + second + third + seq![end@]);
            assert(writes(layout, first + second + third + seq![end@]) =~= writes(layout, first)
                + writes(layout, second) + writes(layout, third) + write_of(layout, end@));
            assert(self@.pending =~= old(self)@.wrote(gradual_scroll_raw_batches(x, y)).pending);
        }
        Ok(())
    }

    /// Scrolls by `(x, y)` in unit steps, those that turn both wheels first,
    /// each step in a write of its own that ends with a synchronization.
    pub fn gradual_scroll(&mut self, x: Coord, y: Coord) -> (r: Result<(), Error>)
        requires
            old(self).wf(),
        ensures
            final(self).continues(*old(self)),
            old(self)@.writing(
                final(self)@,
                r,
                writes(old(self)@.layout, gradual_scroll_batches(x, y)),
            ),
    {
        let g = GradualMove::calculate(x, y);
        let diagonal: [EventParams; 3] = [
            (EV_REL, REL_HWHEEL, g.x_direction),
            (EV_REL, REL_WHEEL, g.y_direction),
            syn_params(),
        ];
        let along_x: [EventParams; 2] = [(EV_REL, REL_HWHEEL, g.x_direction), syn_params()];
        let along_y: [EventParams; 2] = [(EV_REL, REL_WHEEL, g.y_direction), syn_params()];
        self.device.emit_repeated(diagonal.as_slice(), g.both_move)?;
        self.device.emit_repeated(along_x.as_slice(), g.move_only_x)?;
        self.device.emit_repeated(along_y.as_slice(), g.move_only_y)?;
        proof {
            let layout = old(self)@.layout;
            let first = repeated(seq![diagonal@], g.both_move as nat);
            let second = repeated(seq![along_x@], g.move_only_x as nat);
            let third = repeated(seq![along_y@], g.move_only_y as nat);
            assert(diagonal@ =~= seq![wheel_x(g.x_direction), wheel_y(g.y_direction), sync()]);
            assert(along_x@ =~= seq![wheel_x(g.x_direction), sync()]);
            assert(along_y@ =~= seq![wheel_y(g.y_direction), sync()]);
            assert(gradual_scroll_batches(x, y) =~= first + second + third);
            assert(writes(layout, first + second + third) =~= writes(layout, first) + writes(
                layout,
                second,
            ) + writes(layout, third));
            assert(self@.pending =~= old(self)@.wrote(gradual_scroll_batches(x, y)).pending);
        }
        Ok(())
    }

    /// Scrolls by `(x, y)` smoothly: in unit steps that the kernel shows one
    /// by one, each step in a write of its own that ends with a
    /// synchronization.
    pub fn smooth_scroll(&mut self, x: Coord, y: Coord) -> (r: Result<(), Error>)
        requires
            old(self).wf(),
        ensures
            final(self).continues(*old(self)),
            old(self)@.writing(
                final(self)@,
                r,
                writes(old(self)@.layout, gradual_scroll_batches(x, y)),
            ),
    {
        self.gradual_scroll(x, y)
    }

    /// The events of a scroll by `(x, y)` in unit steps, those that turn
    /// both wheels first, each step followed by a synchronization.
    pub fn buffered_gradual_scroll(&self, x: Coord, y: Coord) -> (events: Vec<EventParams>)
        ensures
            events@ == gradual_scroll_events(x, y),
    {
        let mut write_buffer: Vec<EventParams> = Vec::new();
        let g = GradualMove::calculate(x, y);
        let both: [EventParams; 3] = [
            (EV_REL, REL_HWHEEL, g.x_direction),
            (EV_REL, REL_WHEEL, g.y_direction),
            syn_params(),
        ];
        let along_x: [EventParams; 2] = [(EV_REL, REL_HWHEEL, g.x_direction), syn_params()];
        let along_y: [EventParams; 2] = [(EV_REL, REL_WHEEL, g.y_direction), syn_params()];
        push_repeated(&mut write_buffer, both.as_slice(), g.both_move);
        push_repeated(&mut write_buffer, along_x.as_slice(), g.move_only_x);
        push_repeated(&mut write_buffer, along_y.as_slice(), g.move_only_y);
        proof {
            assert(both@ =~= seq![wheel_x(g.x_direction), wheel_y(g.y_direction), sync()]);
            assert(along_x@ =~= seq![wheel_x(g.x_direction), sync()]);
            assert(along_y@ =~= seq![wheel_y(g.y_direction), sync()]);
            assert(write_buffer@ =~= gradual_scroll_events(x, y));
        }
        write_buffer
    }

    /// The events of a press of `button`, with the synchronization that ends
    /// it.
    pub fn buffered_press(&self, button: Button) -> (events: Vec<EventParams>)
        ensures
            events@ == seq![key(button, 1), sync()],
    {
        let mut events: Vec<EventParams> = Vec::new();
        events.push((EV_KEY, button, 1));
        events.push(syn_params());
        assert(events@ =~= seq![key(button, 1), sync()]);
        events
    }

    /// The events of a release of `button`, with the synchronization that
    /// ends it.
    pub fn buffered_release(&self, button: Button) -> (events: Vec<EventParams>)
        ensures
            events@ == seq![key(button, 0), sync()],
    {
        let mut events: Vec<EventParams> = Vec::new();
        events.push((EV_KEY, button, 0));
        events.push(syn_params());
        assert(events@ =~= seq![key(button, 0), sync()]);
        events
    }

    /// Writes a press of `button` and the synchronization that ends it, in
    /// one write.
    pub fn press(&mut self, button: Button) -> (r: Result<(), Error>)
        requires
            old(self).wf(),
        ensures
            final(self).continues(*old(self)),
            old(self)@.writing(
                final(self)@,
                r,
                write_of(old(self)@.layout, seq![key(button, 1), sync()]),
            ),
    {
        let batch: [EventParams; 2] = [(EV_KEY, button, 1), syn_params()];
        assert(batch@ =~= seq![key(button, 1), sync()]);
        self.write_records(batch.as_slice())
    }

    /// Writes a release of `button` and the synchronization that ends it, in
    /// one write.
    pub fn release(&mut self, button: Button) -> (r: Result<(), Error>)
        requires
            old(self).wf(),
        ensures
            final(self).continues(*old(self)),
            old(self)@.writing(
                final(self)@,
                r,
                write_of(old(self)@.layout, seq![key(button, 0), sync()]),
            ),
    {
        let batch: [EventParams; 2] = [(EV_KEY, button, 0), syn_params()];
        assert(batch@ =~= seq![key(button, 0), sync()]);
        self.write_records(batch.as_slice())
    }

    /// Clicks `button`: a press, a pause, a release. The press and the
    /// release are a write each, with a synchronization of its own.
    pub fn click(&mut self, button: Button) -> (r: Result<(), Error>)
        requires
            old(self).wf(),
        ensures
            final(self).continues(*old(self)),
            old(self)@.writing(
                final(self)@,
                r,
                write_of(old(self)@.layout, seq![key(button, 1), sync()]) + seq![
                    OpModel::Sleep(SLEEP_BEFORE_RELEASE),
                ] + write_of(old(self)@.layout, seq![key(button, 0), sync()]),
            ),
    {
        self.press(button)?;
        self.device.pause(SLEEP_BEFORE_RELEASE)?;
        self.release(button)?;
        proof {
            let layout = old(self)@.layout;
            assert(self@.pending =~= old(self)@.pending + (write_of(
                layout,
                seq![key(button, 1), sync()],
            ) + seq![OpModel::Sleep(SLEEP_BEFORE_RELEASE)] + write_of(
                layout,
                seq![key(button, 0), sync()],
            )));
        }
        Ok(())
    }

    /// Sends the event `(kind, code, value)` to the queue, and waits while
    /// the queue is full. Fails where the receiving end of the queue is gone.
    pub fn send_to_channel(kind: u16, code: u16, value: i32, sender: &ChannelSender) -> (r: Result<
        (),
        Error,
    >)
        ensures
            r is Ok || r == Err::<(), Error>(Error::ChannelClosed),
    {
        let events = one_message((kind, code, value));
        send_each(sender, events.as_slice())
    }

    /// Sends the event `(kind, code, value)` to the queue unless the queue is
    /// full. Fails where the queue is full, and where its receiving end is
    /// gone.
    pub fn try_send_to_channel(kind: u16, code: u16, value: i32, sender: &ChannelSender) -> (r:
        Result<(), Error>)
        ensures
            r is Ok || r == Err::<(), Error>(Error::QueueFull) || r == Err::<(), Error>(
                Error::ChannelClosed,
            ),
    {
        sent_or_refused(send_now(sender, (kind, code, value)))
    }

    /// Sends a press of `button` and a synchronization to the queue.
    pub fn send_press(button: Button, sender: &ChannelSender) -> (r: Result<(), Error>)
        ensures
            r is Ok || r == Err::<(), Error>(Error::ChannelClosed),
    {
        let events = press_messages(button);
        send_each(sender, events.as_slice())
    }

    /// Sends a release of `button` to the queue. The synchronization that
    /// ends it is the one that the flusher adds to what it writes.
    pub fn send_release(button: Button, sender: &ChannelSender) -> (r: Result<(), Error>)
        ensures
            r is Ok || r == Err::<(), Error>(Error::ChannelClosed),
    {
        let events = release_messages(button);
        send_each(sender, events.as_slice())
    }

    /// Sends a click of `button` to the queue: a press with its
    /// synchronization, then a release.
    pub fn send_click(button: Button, sender: &ChannelSender) -> (r: Result<(), Error>)
        ensures
            r is Ok || r == Err::<(), Error>(Error::ChannelClosed),
    {
        VirtualDevice::send_press(button, sender)?;
        VirtualDevice::send_release(button, sender)
    }

    /// Sends a move of the cursor by `x` to the right to the queue.
    pub fn send_mouse_move_x(x: Coord, sender: &ChannelSender) -> (r: Result<(), Error>)
        ensures
            r is Ok || r == Err::<(), Error>(Error::ChannelClosed),
    {
        let events = move_x_messages(x);
        send_each(sender, events.as_slice())
    }

    /// Sends a move of the cursor by `y` upwards to the queue.
    pub fn send_mouse_move_y(y: Coord, sender: &ChannelSender) -> (r: Result<(), Error>)
        ensures
            y == i32::MIN ==> r == Err::<(), Error>(Error::OutOfRange),
            y > i32::MIN ==> r is Ok || r == Err::<(), Error>(Error::ChannelClosed),
    {
        if y == i32::MIN {
            return Err(Error::OutOfRange);
        }
        let events = move_y_messages(y);
        send_each(sender, events.as_slice())
    }

    /// Sends a move of the cursor by `x` to the right and `y` upwards to the
    /// queue.
    pub fn send_mouse_move(x: Coord, y: Coord, sender: &ChannelSender) -> (r: Result<(), Error>)
        ensures
            y == i32::MIN ==> r == Err::<(), Error>(Error::OutOfRange),
            y > i32::MIN ==> r is Ok || r == Err::<(), Error>(Error::ChannelClosed),
    {
        if y == i32::MIN {
            return Err(Error::OutOfRange);
        }
        let events = move_messages(x, y);
        send_each(sender, events.as_slice())
    }

    /// Sends a turn of the horizontal wheel by `value` to the queue.
    pub fn send_scroll_x(value: Coord, sender: &ChannelSender) -> (r: Result<(), Error>)
        ensures
            r is Ok || r == Err::<(), Error>(Error::ChannelClosed),
    {
        let events = scroll_x_messages(value);
        send_each(sender, events.as_slice())
    }

    /// Sends a turn of the vertical wheel by `value` to the queue.
    pub fn send_scroll_y(value: Coord, sender: &ChannelSender) -> (r: Result<(), Error>)
        ensures
            r is Ok || r == Err::<(), Error>(Error::ChannelClosed),
    {
        let events = scroll_y_messages(value);
        send_each(sender, events.as_slice())
    }

    /// Writes the records of `batch` and one synchronization behind them to
    /// the handle, in one write: the whole of a gesture reaches the kernel
    /// at once, and the kernel shows it. It is also what the flusher does
    /// with the events that it took from the queue.
    ///
    /// As every write, only while the device is created: at another stage
    /// the write fails, and the device is left as it was.
    pub fn write_batch(&mut self, batch: &[EventParams]) -> (r: Result<(), Error>)
        requires
            old(self).wf(),
        ensures
            final(self).continues(*old(self)),
            old(self)@.writing(
                final(self)@,
                r,
                write_of(old(self)@.layout, batch@.push(sync())),
            ),
    {
        let mut records: Vec<EventParams> = Vec::new();
        let mut i: usize = 0;
        while i < batch.len()
            invariant
                i <= batch.len(),
                records@ =~= batch@.take(i as int),
            decreases batch.len() - i,
        {
            records.push(batch[i]);
            i += 1;
        }
        records.push(syn_params());
        assert(records@ =~= batch@.push(sync()));
        self.device.emit(records.as_slice())
    }

    /// One cycle of the flusher: takes from the queue the events that it
    /// holds at this moment and writes them, in their order and with one
    /// synchronization behind them, to the handle in one write. From a queue
    /// without room it takes the event of one producer that waits.
    ///
    /// Only while the device is created: at another stage the write fails,
    /// and the device and the queue are left as they were.
    pub fn write_events_from_channel(&mut self) -> (r: Result<(), Error>)
        requires
            old(self).wf(),
        ensures
            final(self).continues(*old(self)),
            old(self)@.stage != Stage::Created ==> r == Err::<(), Error>(Error::WriteError)
                && final(self)@ == old(self)@,
            old(self)@.stage == Stage::Created ==> r is Ok && exists|events: Seq<EventParams>|
                final(self)@ == #[trigger] old(self)@.emitted(events.push(sync())) && (old(
                    self,
                ).queue_capacity() matches Some(capacity) ==> events.len() <= most_taken(
                    capacity,
                )),
    {
        match self.device.stage() {
            Stage::Created => {},
            _ => {
                return Err(Error::WriteError);
            },
        }
        let events = drain(&self.receiver);
        let written = self.write_batch(events.as_slice());
        assert(self@ == old(self)@.emitted(events@.push(sync())));
        written
    }

    /// How long the flusher rests after a cycle that took `elapsed`
    /// nanoseconds: what is left of the interval, and nothing where the
    /// cycle took longer than the interval.
    pub fn pause_after(&self, elapsed: u64) -> (nanos: u64)
        ensures
            nanos == rest(self.interval(), elapsed),
    {
        if elapsed >= self.writing_interval {
            0
        } else {
            self.writing_interval - elapsed
        }
    }

    /// What the flusher does after a cycle that took `elapsed` nanoseconds,
    /// `written` being what came of the cycle's write and `stop_asked`
    /// whether the flusher was asked to stop. A write that failed ends the
    /// loop, and so does the request to stop; otherwise the flusher rests
    /// for what is left of the interval.
    pub fn after_cycle(&self, written: Result<(), Error>, elapsed: u64, stop_asked: bool) -> (step:
        FlusherStep)
        ensures
            step == if written is Err || stop_asked {
                FlusherStep::Stop
            } else {
                FlusherStep::Rest(rest(self.interval(), elapsed))
            },
    {
        match written {
            Err(_) => FlusherStep::Stop,
            Ok(()) => {
                if stop_asked {
                    FlusherStep::Stop
                } else {
                    FlusherStep::Rest(self.pause_after(elapsed))
                }
            },
        }
    }

    /// Registers the keys of a keyboard: the codes 1 to 254.
    ///
    /// Refused once the device is created; the device is then left as it was.
    pub fn register_keyboard(&mut self) -> (r: Result<(), Error>)
        requires
            old(self).wf(),
        ensures
            final(self).continues(*old(self)),
            old(self)@.is_settled() ==> r == Err::<(), Error>(Error::AlreadyCreated) && final(self)@
                == old(self)@,
            !old(self)@.is_settled() ==> r is Ok && final(self)@ == old(self)@.registered_all(
                keyboard_capabilities(),
            ),
    {
        let pairs = capability_list(DeviceDefinitionType::KeyboardOnly);
        self.device.register_all(pairs.as_slice())
    }

    /// Registers the buttons and the axes of a mouse: the left, the right
    /// and the middle button, the two axes of the cursor and the two wheels.
    ///
    /// Refused once the device is created; the device is then left as it was.
    pub fn register_mouse(&mut self) -> (r: Result<(), Error>)
        requires
            old(self).wf(),
        ensures
            final(self).continues(*old(self)),
            old(self)@.is_settled() ==> r == Err::<(), Error>(Error::AlreadyCreated) && final(self)@
                == old(self)@,
            !old(self)@.is_settled() ==> r is Ok && final(self)@ == old(self)@.registered_all(
                mouse_capabilities(),
            ),
    {
        let pairs = capability_list(DeviceDefinitionType::MouseOnly);
        self.device.register_all(pairs.as_slice())
    }

    /// Registers the key or button `code`.
    ///
    /// Refused once the device is created; the device is then left as it was.
    pub fn register_key(&mut self, code: u16) -> (r: Result<(), Error>)
        requires
            old(self).wf(),
        ensures
            final(self).continues(*old(self)),
            old(self)@.is_settled() ==> r == Err::<(), Error>(Error::AlreadyCreated) && final(self)@
                == old(self)@,
            !old(self)@.is_settled() ==> r is Ok && final(self)@ == old(self)@.registered(
                EV_KEY,
                code,
            ),
    {
        self.device.register(EV_KEY, code)
    }

    /// Registers the relative axis `code`.
    ///
    /// Refused once the device is created; the device is then left as it was.
    pub fn register_relative(&mut self, code: u16) -> (r: Result<(), Error>)
        requires
            old(self).wf(),
        ensures
            final(self).continues(*old(self)),
            old(self)@.is_settled() ==> r == Err::<(), Error>(Error::AlreadyCreated) && final(self)@
                == old(self)@,
            !old(self)@.is_settled() ==> r is Ok && final(self)@ == old(self)@.registered(
                EV_REL,
                code,
            ),
    {
        self.device.register(EV_REL, code)
    }
}

fn syn_params() -> (event: EventParams)
    ensures
        event == sync(),
{
    (EV_SYN, SYN_REPORT, 0)
}

/// The list that holds the one event `event`.
fn one_message(event: EventParams) -> (events: Vec<EventParams>)
    ensures
        events@ == seq![event],
{
    let mut events: Vec<EventParams> = Vec::new();
    events.push(event);
    assert(events@ =~= seq![event]);
    events
}

/// What a press hands to the queue: the press and a synchronization.
fn press_messages(button: Button) -> (events: Vec<EventParams>)
    ensures
        events@ == seq![key(button, 1), sync()],
{
    let mut events: Vec<EventParams> = Vec::new();
    events.push((EV_KEY, button, 1));
    events.push(syn_params());
    assert(events@ =~= seq![key(button, 1), sync()]);
    events
}

/// What a release hands to the queue: the release alone.
fn release_messages(button: Button) -> (events: Vec<EventParams>)
    ensures
        events@ == seq![key(button, 0)],
{
    one_message((EV_KEY, button, 0))
}

/// What a move of the cursor hands to the queue: the move along the
/// horizontal axis, then the move along the vertical axis.
fn move_messages(x: Coord, y: Coord) -> (events: Vec<EventParams>)
    requires
        y > i32::MIN,
    ensures
        events@ == seq![rel_x(x), rel_y(y)],
{
    let mut events: Vec<EventParams> = Vec::new();
    events.push((EV_REL, REL_X, x));
    events.push((EV_REL, REL_Y, -y));
    assert(events@ =~= seq![rel_x(x), rel_y(y)]);
    events
}

/// What a move of the cursor to the right hands to the queue.
fn move_x_messages(x: Coord) -> (events: Vec<EventParams>)
    ensures
        events@ == seq![rel_x(x)],
{
    one_message((EV_REL, REL_X, x))
}

/// What a move of the cursor upwards hands to the queue.
fn move_y_messages(y: Coord) -> (events: Vec<EventParams>)
    requires
        y > i32::MIN,
    ensures
        events@ == seq![rel_y(y)],
{
    one_message((EV_REL, REL_Y, -y))
}

/// What a turn of the horizontal wheel hands to the queue.
fn scroll_x_messages(value: Coord) -> (events: Vec<EventParams>)
    ensures
        events@ == seq![wheel_x(value)],
{
    one_message((EV_REL, REL_HWHEEL, value))
}

/// What a turn of the vertical wheel hands to the queue.
fn scroll_y_messages(value: Coord) -> (events: Vec<EventParams>)
    ensures
        events@ == seq![wheel_y(value)],
{
    one_message((EV_REL, REL_WHEEL, value))
}

} // verus!
