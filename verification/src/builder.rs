//! A plain virtual device: a keyboard and a mouse, written to one record at
//! a time. Each event is followed by a synchronization, so that the kernel
//! shows it at once.
//!
//! Codes and values are handed over as the kernel counts them: along the
//! cursor's vertical axis a positive value moves down.

use crate::capability::{all_supported, calls_to_register_all, well_ordered, ControlCall};
use crate::codec::{host_layout, low16, low_bits, EventParams, WireLayout};
use crate::descriptor::{description_bytes, input_id, name_field, UINPUT_MAX_NAME_SIZE};
use crate::error::Error;
use crate::gesture::sync;
use crate::key_codes::{
    BTN_LEFT,
    BTN_MIDDLE,
    BTN_RIGHT,
    EV_KEY,
    EV_REL,
    EV_SYN,
    REL_HWHEEL,
    REL_WHEEL,
    REL_X,
    REL_Y,
    SYN_REPORT,
};
use crate::lifecycle::{fresh, set_up, DeviceModel, Lifecycle, Stage};
use crate::ops::{control_ops, models, write_of, Op, OpModel};
use vstd::prelude::*;
use vstd::string::StringSliceAdditionalSpecFns;

verus! {

/// The result of an operation on a plain device.
pub type Res<T> = Result<T, Error>;

/// What a plain device registers, in its order: the keys with the codes 1 to
/// 126, the three buttons of a mouse, the two axes of the cursor and the two
/// wheels.
pub open spec fn plain_capabilities() -> Seq<(u16, u16)> {
    Seq::new(126, |i: int| (EV_KEY, (i + 1) as u16)) + seq![
        (EV_KEY, BTN_LEFT),
        (EV_KEY, BTN_RIGHT),
        (EV_KEY, BTN_MIDDLE),
        (EV_REL, REL_X),
        (EV_REL, REL_Y),
        (EV_REL, REL_HWHEEL),
        (EV_REL, REL_WHEEL),
    ]
}

/// The identity of a plain device: none.
pub open spec fn no_identity() -> input_id {
    input_id { bustype: 0, vendor: 0, product: 0, version: 0 }
}

/// A plain virtual device.
pub struct FakeDevice {
    device: Lifecycle,
}

impl View for FakeDevice {
    type V = DeviceModel;

    closed spec fn view(&self) -> DeviceModel {
        self.device@
    }
}

fn plain_list() -> (pairs: Vec<(u16, u16)>)
    ensures
        pairs@ == plain_capabilities(),
        all_supported(pairs@),
{
    let mut pairs: Vec<(u16, u16)> = Vec::new();
    let mut code: u16 = 1;
    while code < 127
        invariant
            1 <= code <= 127,
            pairs@ =~= Seq::new((code - 1) as nat, |i: int| (EV_KEY, (i + 1) as u16)),
        decreases 127 - code,
    {
        pairs.push((EV_KEY, code));
        code += 1;
    }
    pairs.push((EV_KEY, BTN_LEFT));
    pairs.push((EV_KEY, BTN_RIGHT));
    pairs.push((EV_KEY, BTN_MIDDLE));
    pairs.push((EV_REL, REL_X));
    pairs.push((EV_REL, REL_Y));
    pairs.push((EV_REL, REL_HWHEEL));
    pairs.push((EV_REL, REL_WHEEL));
    assert(pairs@ =~= plain_capabilities());
    pairs
}

/// The name of a plain device is plain text that fits in the name field.
proof fn lemma_name_fits()
    ensures
        !"testdevice".spec_bytes().contains(0u8),
        "testdevice".spec_bytes().len() < UINPUT_MAX_NAME_SIZE,
{
    reveal_strlit("testdevice");
    let name = "testdevice";
    assert(vstd::string::is_ascii(name));
    vstd::string::is_ascii_spec_bytes(name);
    assert forall|i: int| 0 <= i < name.spec_bytes().len() implies name.spec_bytes()[i] != 0u8 by {
        assert(name.spec_bytes()[i] == name@[i] as u8);
    }
}

impl FakeDevice {
    /// Whether the parts of the device agree with one another.
    pub closed spec fn consistent(self) -> bool {
        self.device.consistent()
    }

    /// The invariant of a device.
    pub open spec fn wf(self) -> bool {
        &&& well_ordered(self@.issued)
        &&& self.consistent()
    }

    /// A device whose handle is asked for, with records of the layout
    /// `layout`, an empty description and no capabilities.
    pub fn open(layout: WireLayout) -> (device: Self)
        ensures
            device.wf(),
            device@.description.is_zeroed(),
            device@ == fresh(layout, device@.description),
    {
        FakeDevice { device: Lifecycle::open(layout) }
    }

    /// A device called `testdevice`, set up as a keyboard and a mouse, with
    /// records of the layout of this machine.
    pub fn new() -> (device: Self)
        ensures
            device.wf(),
            device@.layout == host_layout(),
            set_up(device@, "testdevice".spec_bytes(), no_identity(), plain_capabilities()),
    {
        Self::with_layout(WireLayout::host())
    }

    /// A device called `testdevice`, set up as a keyboard and a mouse, with
    /// records of the layout `layout`.
    pub fn with_layout(layout: WireLayout) -> (device: Self)
        ensures
            device.wf(),
            device@.layout == layout,
            set_up(device@, "testdevice".spec_bytes(), no_identity(), plain_capabilities()),
    {
        let mut fake_device = FakeDevice::open(layout);
        proof {
            lemma_name_fits();
        }
        let named = fake_device.set_name("testdevice");
        assert(named is Ok);
        let registered = fake_device.register_all();
        assert(registered is Ok);
        let created = fake_device.create();
        assert(created is Ok);
        proof {
            let description = fake_device@.description;
            let calls = calls_to_register_all(Seq::empty(), plain_capabilities());
            assert(description.name@ =~= name_field(
                Seq::new(UINPUT_MAX_NAME_SIZE as nat, |i: int| 0i8),
                "testdevice".spec_bytes(),
            ));
            assert(fake_device@.issued =~= calls);
            assert(fake_device@.pending =~= seq![OpModel::Open] + control_ops(calls) + seq![
                OpModel::Write(description_bytes(layout.order, description)),
                OpModel::Control(ControlCall::Create),
            ]);
        }
        fake_device
    }

    /// The stage of the device's life.
    pub fn stage(&self) -> (stage: Stage)
        ensures
            stage == self@.stage,
    {
        self.device.stage()
    }

    /// The layout of the records that the device writes.
    pub fn layout(&self) -> (layout: WireLayout)
        ensures
            layout == self@.layout,
    {
        self.device.layout()
    }

    /// Declares the name of the device.
    ///
    /// Refused once the device is created. A name that holds a zero byte is
    /// refused, and so is one of more than 79 bytes: with the zero byte that
    /// ends it, it does not fit in its field. On an error the device is left
    /// as it was.
    pub fn set_name(&mut self, value: &str) -> (r: Res<()>)
        requires
            old(self).wf(),
        ensures
            final(self).wf(),
            old(self)@.is_settled() ==> r == Err::<(), Error>(Error::AlreadyCreated),
            !old(self)@.is_settled() && value.spec_bytes().contains(0u8) ==> r == Err::<(), Error>(
                Error::NameContainsNul,
            ),
            !old(self)@.is_settled() && !value.spec_bytes().contains(0u8)
                && value.spec_bytes().len() >= UINPUT_MAX_NAME_SIZE ==> r == Err::<(), Error>(
                Error::NameTooLong,
            ),
            !old(self)@.is_settled() && !value.spec_bytes().contains(0u8)
                && value.spec_bytes().len() < UINPUT_MAX_NAME_SIZE ==> r is Ok,
            r is Err ==> final(self)@ == old(self)@,
            r is Ok ==> final(self)@ == (DeviceModel {
                stage: Stage::Registered,
                description: final(self)@.description,
                ..old(self)@
            }),
            r is Ok ==> final(self)@.description.name@ == name_field(
                old(self)@.description.name@,
                value.spec_bytes(),
            ),
            final(self)@.description.id == old(self)@.description.id,
            final(self)@.description.ff_effects_max == old(self)@.description.ff_effects_max,
            final(self)@.description.absmax == old(self)@.description.absmax,
            final(self)@.description.absmin == old(self)@.description.absmin,
            final(self)@.description.absfuzz == old(self)@.description.absfuzz,
            final(self)@.description.absflat == old(self)@.description.absflat,
    {
        self.device.set_name(value)
    }

    /// Asks for the creation of the device: its description is written to
    /// the handle in one write, then the creating control call is issued.
    /// From here on what the device is cannot change.
    ///
    /// Refused once the device is created; the device is then left as it was.
    pub fn create(&mut self) -> (r: Res<()>)
        requires
            old(self).wf(),
        ensures
            final(self).wf(),
            old(self)@.is_settled() ==> r == Err::<(), Error>(Error::AlreadyCreated) && final(self)@
                == old(self)@,
            !old(self)@.is_settled() ==> r is Ok && final(self)@ == old(self)@.created(),
    {
        self.device.create()
    }

    /// Registers what a plain device can emit: the keys with the codes 1 to
    /// 126, the three buttons of a mouse, the two axes of the cursor and the
    /// two wheels.
    ///
    /// Refused once the device is created; the device is then left as it was.
    pub fn register_all(&mut self) -> (r: Res<()>)
        requires
            old(self).wf(),
        ensures
            final(self).wf(),
            old(self)@.is_settled() ==> r == Err::<(), Error>(Error::AlreadyCreated) && final(self)@
                == old(self)@,
            !old(self)@.is_settled() ==> r is Ok && final(self)@ == old(self)@.registered_all(
                plain_capabilities(),
            ),
    {
        let pairs = plain_list();
        self.device.register_all(pairs.as_slice())
    }

    /// Registers the key or button whose code the low sixteen bits of `code`
    /// make up.
    ///
    /// Refused once the device is created; the device is then left as it was.
    pub fn register_key(&mut self, code: i32) -> (r: Res<()>)
        requires
            old(self).wf(),
        ensures
            final(self).wf(),
            old(self)@.is_settled() ==> r == Err::<(), Error>(Error::AlreadyCreated) && final(self)@
                == old(self)@,
            !old(self)@.is_settled() ==> r is Ok && final(self)@ == old(self)@.registered(
                EV_KEY,
                low16(code),
            ),
    {
        self.device.register(EV_KEY, low_bits(code))
    }

    /// Registers the relative axis whose code the low sixteen bits of `code`
    /// make up.
    ///
    /// Refused once the device is created; the device is then left as it was.
    pub fn register_relative(&mut self, code: i32) -> (r: Res<()>)
        requires
            old(self).wf(),
        ensures
            final(self).wf(),
            old(self)@.is_settled() ==> r == Err::<(), Error>(Error::AlreadyCreated) && final(self)@
                == old(self)@,
            !old(self)@.is_settled() ==> r is Ok && final(self)@ == old(self)@.registered(
                EV_REL,
                low16(code),
            ),
    {
        self.device.register(EV_REL, low_bits(code))
    }

    fn write(&mut self, kind: i32, code: i32, value: i32) -> (r: Res<()>)
        requires
            old(self).wf(),
        ensures
            final(self).wf(),
            old(self)@.writing(
                final(self)@,
                r,
                write_of(old(self)@.layout, seq![(low16(kind), low16(code), value)]),
            ),
    {
        let batch: [EventParams; 1] = [(low_bits(kind), low_bits(code), value)];
        assert(batch@ =~= seq![(low16(kind), low16(code), value)]);
        self.device.emit(batch.as_slice())
    }

    /// Writes a synchronization: the kernel shows the events written since
    /// the last one.
    ///
    /// As every write, only while the device is created: at another stage
    /// the write fails, and the device is left as it was.
    pub fn synchronize(&mut self) -> (r: Res<()>)
        requires
            old(self).wf(),
        ensures
            final(self).wf(),
            old(self)@.writing(final(self)@, r, write_of(old(self)@.layout, seq![sync()])),
    {
        self.write(EV_SYN as i32, SYN_REPORT as i32, 0)
    }

    fn write_and_synchronize(&mut self, kind: u16, code: i32, value: i32) -> (r: Res<()>)
        requires
            old(self).wf(),
        ensures
            final(self).wf(),
            old(self)@.writing(
                final(self)@,
                r,
                write_of(old(self)@.layout, seq![(kind, low16(code), value)]) + write_of(
                    old(self)@.layout,
                    seq![sync()],
                ),
            ),
    {
        self.write(kind as i32, code, value)?;
        self.synchronize()?;
        proof {
            let layout = old(self)@.layout;
            assert(low16(kind as i32) == kind);
            assert(self@.pending =~= old(self)@.pending + (write_of(
                layout,
                seq![(kind, low16(code), value)],
            ) + write_of(layout, seq![sync()])));
        }
        Ok(())
    }

    /// Writes a move along the relative axis whose code the low sixteen bits
    /// of `code` make up, by `value` as the kernel counts it, and then a
    /// synchronization, each in a write of its own.
    pub fn move_mouse_or_wheel(&mut self, code: i32, value: i32) -> (r: Res<()>)
        requires
            old(self).wf(),
        ensures
            final(self).wf(),
            old(self)@.writing(
                final(self)@,
                r,
                write_of(old(self)@.layout, seq![(EV_REL, low16(code), value)]) + write_of(
                    old(self)@.layout,
                    seq![sync()],
                ),
            ),
    {
        self.write_and_synchronize(EV_REL, code, value)
    }

    /// Writes a press of the key or button whose code the low sixteen bits
    /// of `button` make up, and then a synchronization, each in a write of
    /// its own.
    pub fn press(&mut self, button: i32) -> (r: Res<()>)
        requires
            old(self).wf(),
        ensures
            final(self).wf(),
            old(self)@.writing(
                final(self)@,
                r,
                write_of(old(self)@.layout, seq![(EV_KEY, low16(button), 1i32)]) + write_of(
                    old(self)@.layout,
                    seq![sync()],
                ),
            ),
    {
        self.write_and_synchronize(EV_KEY, button, 1)
    }

    /// Writes a release of the key or button whose code the low sixteen bits
    /// of `button` make up, and then a synchronization, each in a write of
    /// its own.
    pub fn release(&mut self, button: i32) -> (r: Res<()>)
        requires
            old(self).wf(),
        ensures
            final(self).wf(),
            old(self)@.writing(
                final(self)@,
                r,
                write_of(old(self)@.layout, seq![(EV_KEY, low16(button), 0i32)]) + write_of(
                    old(self)@.layout,
                    seq![sync()],
                ),
            ),
    {
        self.write_and_synchronize(EV_KEY, button, 0)
    }

    /// Asks for the destruction of the device, unless that was done before:
    /// the destroying control call is issued once in a device's life, from
    /// whatever stage.
    pub fn destroy(&mut self)
        requires
            old(self).wf(),
        ensures
            final(self).wf(),
            final(self)@ == old(self)@.destroyed(),
    {
        self.device.destroy()
    }

    /// Hands the pending operations to the driver, in their order, and
    /// leaves none pending.
    pub fn take_pending(&mut self) -> (ops: Vec<Op>)
        requires
            old(self).wf(),
        ensures
            final(self).wf(),
            models(ops@) == old(self)@.pending,
            final(self)@ == (DeviceModel { pending: Seq::<OpModel>::empty(), ..old(self)@ }),
    {
        self.device.take_pending()
    }
}

} // verus!
