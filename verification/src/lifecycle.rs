//! The life of a device, from the moment its handle is asked for to its
//! destruction.
//!
//! A device is `Open` once its handle is asked for, `Registered` once a name
//! or a capability is declared, `Created` once the kernel is asked to create
//! it, and `Destroyed` once the kernel is asked to destroy it. What a device
//! is (its name, its capabilities) can change only before it is created;
//! events can be written only while it is created; and it is destroyed once,
//! from whatever stage.

use crate::capability::{
    all_supported,
    calls_to_register,
    calls_to_register_all,
    supports,
    well_ordered,
    CapabilityRegistry,
    ControlCall,
};
use crate::codec::{encode_batch, encoded_batch, EventParams, WireLayout};
use crate::descriptor::{
    description_bytes,
    input_id,
    name_field,
    uinput_user_dev,
    UINPUT_MAX_NAME_SIZE,
};
use crate::key_codes::{ABS_CNT, EV_KEY, EV_REL};
use crate::error::Error;
use crate::motion::repeated;
use crate::ops::{control_ops, lemma_writes_concat, models, write_of, writes, Op, OpModel};
use vstd::prelude::*;
use vstd::string::StringSliceAdditionalSpecFns;

verus! {

/// The stage of a device's life.
#[derive(PartialEq, Eq, Structural, Copy, Clone, Debug)]
pub enum Stage {
    /// The handle is asked for; nothing is declared yet.
    Open,
    /// A name or a capability is declared.
    Registered,
    /// The kernel is asked to create the device.
    Created,
    /// The kernel is asked to destroy the device.
    Destroyed,
}

/// A device as contracts speak of it.
pub struct DeviceModel {
    /// The stage of its life.
    pub stage: Stage,
    /// The layout of the records that it writes.
    pub layout: WireLayout,
    /// Its description.
    pub description: uinput_user_dev,
    /// The control calls that declared its capabilities, in their order.
    pub issued: Seq<ControlCall>,
    /// The operations that its driver has not taken yet, in their order.
    pub pending: Seq<OpModel>,
}

impl DeviceModel {
    /// Whether what the device is can no longer change.
    pub open spec fn is_settled(self) -> bool {
        self.stage == Stage::Created || self.stage == Stage::Destroyed
    }

    /// The device after `ops` were added to its pending operations.
    pub open spec fn with(self, ops: Seq<OpModel>) -> DeviceModel {
        DeviceModel { pending: self.pending + ops, ..self }
    }

    /// The device after the code `code` of the event type `kind` was
    /// registered.
    pub open spec fn registered(self, kind: u16, code: u16) -> DeviceModel {
        let calls = calls_to_register(self.issued, kind, code);
        DeviceModel {
            stage: Stage::Registered,
            issued: self.issued + calls,
            pending: self.pending + control_ops(calls),
            ..self
        }
    }

    /// The device after the pairs of `pairs`, each an event type and a code,
    /// were registered in their order.
    pub open spec fn registered_all(self, pairs: Seq<(u16, u16)>) -> DeviceModel {
        let calls = calls_to_register_all(self.issued, pairs);
        DeviceModel {
            stage: if pairs.len() == 0 {
                self.stage
            } else {
                Stage::Registered
            },
            issued: self.issued + calls,
            pending: self.pending + control_ops(calls),
            ..self
        }
    }

    /// The device after its creation was asked for: its description is
    /// written in one write, then the creating control call is issued.
    pub open spec fn created(self) -> DeviceModel {
        DeviceModel {
            stage: Stage::Created,
            pending: self.pending + seq![
                OpModel::Write(description_bytes(self.layout.order, self.description)),
                OpModel::Control(ControlCall::Create),
            ],
            ..self
        }
    }

    /// The device after its destruction was asked for.
    pub open spec fn destroyed(self) -> DeviceModel {
        if self.stage == Stage::Destroyed {
            self
        } else {
            DeviceModel {
                stage: Stage::Destroyed,
                pending: self.pending.push(OpModel::Control(ControlCall::Destroy)),
                ..self
            }
        }
    }

    /// The device after `events` were written in one write.
    pub open spec fn emitted(self, events: Seq<EventParams>) -> DeviceModel {
        self.with(seq![OpModel::Write(encoded_batch(self.layout, events))])
    }

    /// The device after each batch of `batches` was written in a write of
    /// its own.
    pub open spec fn wrote(self, batches: Seq<Seq<EventParams>>) -> DeviceModel {
        self.with(writes(self.layout, batches))
    }

    /// What an operation that writes does to a device, `self` being the
    /// device before it, `after` the device after it and `r` its result. On
    /// a created device it succeeds and adds `ops` to the pending operations;
    /// at another stage it fails as a write, and leaves the device as it was.
    pub open spec fn writing(self, after: DeviceModel, r: Result<(), Error>, ops: Seq<OpModel>) -> bool {
        if self.stage == Stage::Created {
            r is Ok && after == self.with(ops)
        } else {
            r == Err::<(), Error>(Error::WriteError) && after == self
        }
    }
}

/// The destroying control call is issued once: asking for the destruction
/// of a device that is destroyed changes nothing, and asking for that of
/// another adds the one call.
pub proof fn lemma_destroyed_once(device: DeviceModel)
    ensures
        device.destroyed().stage == Stage::Destroyed,
        device.destroyed().destroyed() == device.destroyed(),
        device.stage != Stage::Destroyed ==> device.destroyed().pending == device.pending.push(
            OpModel::Control(ControlCall::Destroy),
        ),
        device.stage == Stage::Destroyed ==> device.destroyed() == device,
{
}

/// A device whose handle is asked for, and nothing more.
pub open spec fn fresh(layout: WireLayout, description: uinput_user_dev) -> DeviceModel {
    DeviceModel {
        stage: Stage::Open,
        layout,
        description,
        issued: Seq::empty(),
        pending: seq![OpModel::Open],
    }
}

/// Whether `description` is that of a device with the name `name` and the
/// identity `id`, and holds zero everywhere else.
pub open spec fn describes(description: uinput_user_dev, name: Seq<u8>, id: input_id) -> bool {
    &&& description.name@ == name_field(Seq::new(UINPUT_MAX_NAME_SIZE as nat, |i: int| 0i8), name)
    &&& description.id == id
    &&& description.ff_effects_max == 0
    &&& forall|i: int| 0 <= i < ABS_CNT ==> description.absmax@[i] == 0
    &&& forall|i: int| 0 <= i < ABS_CNT ==> description.absmin@[i] == 0
    &&& forall|i: int| 0 <= i < ABS_CNT ==> description.absfuzz@[i] == 0
    &&& forall|i: int| 0 <= i < ABS_CNT ==> description.absflat@[i] == 0
}

/// Whether `device` is a device that was set up with the name `name`, the
/// identity `id` and the capabilities `capabilities`, and of which the
/// driver has taken nothing yet. Its pending operations are these, in this
/// order: its handle is asked for; the control calls that register the
/// capabilities are issued; its description is written in one write; the
/// creating control call is issued.
pub open spec fn set_up(
    device: DeviceModel,
    name: Seq<u8>,
    id: input_id,
    capabilities: Seq<(u16, u16)>,
) -> bool {
    &&& describes(device.description, name, id)
    &&& device.stage == Stage::Created
    &&& device.issued == calls_to_register_all(Seq::empty(), capabilities)
    &&& device.pending == seq![OpModel::Open] + control_ops(device.issued) + seq![
        OpModel::Write(description_bytes(device.layout.order, device.description)),
        OpModel::Control(ControlCall::Create),
    ]
}

fn push_controls(pending: &mut Vec<Op>, calls: &Vec<ControlCall>)
    ensures
        models(final(pending)@) == models(old(pending)@) + control_ops(calls@),
{
    let mut i: usize = 0;
    while i < calls.len()
        invariant
            i <= calls.len(),
            pending@.len() == old(pending)@.len() + i,
            forall|k: int| 0 <= k < old(pending)@.len() ==> pending@[k] == old(pending)@[k],
            forall|k: int|
                0 <= k < i ==> (#[trigger] pending@[old(pending)@.len() + k])@ == OpModel::Control(
                    calls@[k],
                ),
        decreases calls.len() - i,
    {
        pending.push(Op::Control(calls[i]));
        i += 1;
    }
    assert(models(pending@) =~= models(old(pending)@) + control_ops(calls@)) by {
        let before = old(pending)@.len() as int;
        assert forall|k: int| 0 <= k < pending@.len() implies models(pending@)[k] == (models(
            old(pending)@,
        ) + control_ops(calls@))[k] by {
            if k >= before {
                assert(pending@[before + (k - before)]@ == OpModel::Control(calls@[k - before]));
            }
        }
    }
}

fn push_write(pending: &mut Vec<Op>, layout: WireLayout, batch: &[EventParams])
    ensures
        models(final(pending)@) == models(old(pending)@) + write_of(layout, batch@),
{
    let bytes = encode_batch(layout, batch);
    pending.push(Op::Write(bytes));
    assert(models(pending@) =~= models(old(pending)@) + write_of(layout, batch@));
}

/// The batches of one round of writes: `first`, and `second` behind it
/// where there are two.
spec fn round(first: Seq<EventParams>, second: Seq<EventParams>, two: bool) -> Seq<
    Seq<EventParams>,
> {
    if two {
        seq![first, second]
    } else {
        seq![first]
    }
}

fn push_writes(
    pending: &mut Vec<Op>,
    layout: WireLayout,
    first: &[EventParams],
    second: &[EventParams],
    two: bool,
    times: u32,
)
    ensures
        models(final(pending)@) == models(old(pending)@) + writes(
            layout,
            repeated(round(first@, second@, two), times as nat),
        ),
{
    let ghost step = round(first@, second@, two);
    let mut i: u32 = 0;
    assert(models(pending@) =~= models(old(pending)@) + writes(layout, repeated(step, 0)));
    while i < times
        invariant
            i <= times,
            step == round(first@, second@, two),
            models(pending@) == models(old(pending)@) + writes(layout, repeated(step, i as nat)),
        decreases times - i,
    {
        let ghost before = models(pending@);
        push_write(pending, layout, first);
        if two {
            push_write(pending, layout, second);
        }
        proof {
            lemma_writes_concat(layout, repeated(step, i as nat), step);
            assert(writes(layout, step) =~= if two {
                write_of(layout, first@) + write_of(layout, second@)
            } else {
                write_of(layout, first@)
            });
            assert(models(pending@) =~= before + writes(layout, step));
            assert(models(pending@) =~= models(old(pending)@) + writes(
                layout,
                repeated(step, (i + 1) as nat),
            ));
        }
        i += 1;
    }
}

/// The part of a device that its stages, its description, its capabilities
/// and its pending operations make up.
#[derive(Debug)]
pub struct Lifecycle {
    stage: Stage,
    layout: WireLayout,
    def: uinput_user_dev,
    caps: CapabilityRegistry,
    pending: Vec<Op>,
}

impl View for Lifecycle {
    type V = DeviceModel;

    closed spec fn view(&self) -> DeviceModel {
        DeviceModel {
            stage: self.stage,
            layout: self.layout,
            description: self.def,
            issued: self.caps.issued(),
            pending: models(self.pending@),
        }
    }
}

impl Lifecycle {
    /// Whether the registry is closed exactly when the device is settled.
    pub closed spec fn consistent(self) -> bool {
        self.caps.is_frozen() == self@.is_settled()
    }

    /// The invariant of a device.
    pub open spec fn wf(self) -> bool {
        &&& well_ordered(self@.issued)
        &&& self.consistent()
    }

    /// A device whose handle is asked for, with records of the layout
    /// `layout`, an empty description and no capabilities.
    pub fn open(layout: WireLayout) -> (device: Self)
        ensures
            device.wf(),
            device@.stage == Stage::Open,
            device@.layout == layout,
            device@.description.is_zeroed(),
            device@.issued == Seq::<ControlCall>::empty(),
            device@.pending == seq![OpModel::Open],
    {
        let mut pending: Vec<Op> = Vec::new();
        pending.push(Op::Open);
        let device = Lifecycle {
            stage: Stage::Open,
            layout,
            def: uinput_user_dev::zeroed(),
            caps: CapabilityRegistry::new(),
            pending,
        };
        assert(device@.pending =~= seq![OpModel::Open]);
        device
    }

    /// The stage of the device's life.
    pub fn stage(&self) -> (stage: Stage)
        ensures
            stage == self@.stage,
    {
        self.stage
    }

    /// The layout of the records that the device writes.
    pub fn layout(&self) -> (layout: WireLayout)
        ensures
            layout == self@.layout,
    {
        self.layout
    }

    /// The description of the device.
    pub fn description(&self) -> (description: &uinput_user_dev)
        ensures
            *description == self@.description,
    {
        &self.def
    }

    /// The capabilities of the device.
    pub fn capabilities(&self) -> (capabilities: &CapabilityRegistry)
        requires
            self.wf(),
        ensures
            capabilities.wf(),
            capabilities.issued() == self@.issued,
            capabilities.is_frozen() == self@.is_settled(),
    {
        &self.caps
    }

    /// Declares the name of the device.
    ///
    /// Refused once the device is created. A name that holds a zero byte is
    /// refused, and so is one of more than 79 bytes: with the zero byte that
    /// ends it, it does not fit in its field. On an error the device is left
    /// as it was.
    pub fn set_name(&mut self, value: &str) -> (r: Result<(), Error>)
        requires
            old(self).wf(),
        ensures
            final(self).wf(),
            old(self)@.is_settled() ==> r == Err::<(), Error>(Error::AlreadyCreated),
            !old(self)@.is_settled() && value.spec_bytes().contains(0u8) ==> r == Err::<(), Error>(
                Error::NameContainsNul,
            ),
            !old(self)@.is_settled() && !value.spec_bytes().contains(0u8)
                && value.spec_bytes().len() >= UINPUT_MAX_NAME_SIZE ==> r == Err::<(), Error>(
                Error::NameTooLong,
            ),
            !old(self)@.is_settled() && !value.spec_bytes().contains(0u8)
                && value.spec_bytes().len() < UINPUT_MAX_NAME_SIZE ==> r is Ok,
            r is Err ==> final(self)@ == old(self)@,
            r is Ok ==> final(self)@ == (DeviceModel {
                stage: Stage::Registered,
                description: final(self)@.description,
                ..old(self)@
            }),
            r is Ok ==> final(self)@.description.name@ == name_field(
                old(self)@.description.name@,
                value.spec_bytes(),
            ),
            final(self)@.description.id == old(self)@.description.id,
            final(self)@.description.ff_effects_max == old(self)@.description.ff_effects_max,
            final(self)@.description.absmax == old(self)@.description.absmax,
            final(self)@.description.absmin == old(self)@.description.absmin,
            final(self)@.description.absfuzz == old(self)@.description.absfuzz,
            final(self)@.description.absflat == old(self)@.description.absflat,
    {
        match self.stage {
            Stage::Created | Stage::Destroyed => {
                return Err(Error::AlreadyCreated);
            },
            _ => {},
        }
        match self.def.set_name(value) {
            Ok(()) => {
                self.stage = Stage::Registered;
                Ok(())
            },
            Err(e) => Err(e),
        }
    }

    /// Registers the code `code` of the event type `kind`: the control calls
    /// that this takes are added to the pending operations.
    ///
    /// Refused once the device is created, and for an event type whose codes
    /// no control call enables. On an error the device is left as it was.
    pub fn register(&mut self, kind: u16, code: u16) -> (r: Result<(), Error>)
        requires
            old(self).wf(),
        ensures
            final(self).wf(),
            old(self)@.is_settled() ==> r == Err::<(), Error>(Error::AlreadyCreated),
            !old(self)@.is_settled() && !supports(kind) ==> r == Err::<(), Error>(
                Error::CapabilityError,
            ),
            !old(self)@.is_settled() && supports(kind) ==> r is Ok,
            r is Err ==> final(self)@ == old(self)@,
            r is Ok ==> final(self)@ == old(self)@.registered(kind, code),
    {
        match self.caps.register(kind, code) {
            Ok(calls) => {
                push_controls(&mut self.pending, &calls);
                self.stage = Stage::Registered;
                Ok(())
            },
            Err(e) => Err(e),
        }
    }

    /// Registers the pairs of `pairs`, each an event type and a code, in
    /// their order.
    ///
    /// Refused once the device is created, and where one of the event types
    /// is one whose codes no control call enables. On an error the device is
    /// left as it was.
    pub fn register_all(&mut self, pairs: &[(u16, u16)]) -> (r: Result<(), Error>)
        requires
            old(self).wf(),
        ensures
            final(self).wf(),
            old(self)@.is_settled() ==> r == Err::<(), Error>(Error::AlreadyCreated),
            !old(self)@.is_settled() && !all_supported(pairs@) ==> r == Err::<(), Error>(
                Error::CapabilityError,
            ),
            !old(self)@.is_settled() && all_supported(pairs@) ==> r is Ok,
            r is Err ==> final(self)@ == old(self)@,
            r is Ok ==> final(self)@ == old(self)@.registered_all(pairs@),
    {
        match self.stage {
            Stage::Created | Stage::Destroyed => {
                return Err(Error::AlreadyCreated);
            },
            _ => {},
        }
        let mut k: usize = 0;
        while k < pairs.len()
            invariant
                k <= pairs.len(),
                *self == *old(self),
                self.wf(),
                !self@.is_settled(),
                forall|j: int| 0 <= j < k ==> supports(#[trigger] pairs@[j].0),
            decreases pairs.len() - k,
        {
            if pairs[k].0 != EV_KEY && pairs[k].0 != EV_REL {
                return Err(Error::CapabilityError);
            }
            k += 1;
        }
        let mut i: usize = 0;
        assert(pairs@.take(0) =~= Seq::<(u16, u16)>::empty());
        assert(self@.issued =~= old(self)@.registered_all(pairs@.take(0)).issued);
        assert(self@.pending =~= old(self)@.registered_all(pairs@.take(0)).pending);
        while i < pairs.len()
            invariant
                i <= pairs.len(),
                all_supported(pairs@),
                self.wf(),
                !self@.is_settled(),
                self@ == old(self)@.registered_all(pairs@.take(i as int)),
            decreases pairs.len() - i,
        {
            let pair: (u16, u16) = pairs[i];
            assert(supports(pairs@[i as int].0));
            let registered = self.register(pair.0, pair.1);
            assert(registered is Ok);
            proof {
                let before = calls_to_register_all(old(self)@.issued, pairs@.take(i as int));
                let now = calls_to_register_all(old(self)@.issued, pairs@.take(i + 1));
                assert(pairs@.take(i + 1).drop_last() =~= pairs@.take(i as int));
                assert(pairs@.take(i + 1).last() == pair);
                assert(now == before + calls_to_register(
                    old(self)@.issued + before,
                    pair.0,
                    pair.1,
                ));
                assert(self@.issued =~= old(self)@.registered_all(pairs@.take(i + 1)).issued);
                assert(self@.pending =~= old(self)@.registered_all(pairs@.take(i + 1)).pending);
            }
            i += 1;
        }
        assert(pairs@.take(i as int) =~= pairs@);
        Ok(())
    }

    /// Declares the identity of the device.
    ///
    /// Refused once the device is created; the device is then left as it was.
    pub fn set_identity(&mut self, id: input_id) -> (r: Result<(), Error>)
        requires
            old(self).wf(),
        ensures
            final(self).wf(),
            old(self)@.is_settled() ==> r == Err::<(), Error>(Error::AlreadyCreated) && final(self)@
                == old(self)@,
            !old(self)@.is_settled() ==> r is Ok && final(self)@ == (DeviceModel {
                stage: Stage::Registered,
                description: final(self)@.description,
                ..old(self)@
            }),
            !old(self)@.is_settled() ==> final(self)@.description.id == id,
            final(self)@.description.name == old(self)@.description.name,
            final(self)@.description.ff_effects_max == old(self)@.description.ff_effects_max,
            final(self)@.description.absmax == old(self)@.description.absmax,
            final(self)@.description.absmin == old(self)@.description.absmin,
            final(self)@.description.absfuzz == old(self)@.description.absfuzz,
            final(self)@.description.absflat == old(self)@.description.absflat,
    {
        match self.stage {
            Stage::Created | Stage::Destroyed => {
                return Err(Error::AlreadyCreated);
            },
            _ => {},
        }
        self.def.id = id;
        self.stage = Stage::Registered;
        Ok(())
    }

    /// Asks for the creation of the device: its description is written to
    /// the handle in one write, then the creating control call is issued.
    /// From here on what the device is cannot change.
    ///
    /// Refused once the device is created; the device is then left as it was.
    pub fn create(&mut self) -> (r: Result<(), Error>)
        requires
            old(self).wf(),
        ensures
            final(self).wf(),
            old(self)@.is_settled() ==> r == Err::<(), Error>(Error::AlreadyCreated) && final(self)@
                == old(self)@,
            !old(self)@.is_settled() ==> r is Ok && final(self)@ == old(self)@.created(),
    {
        match self.stage {
            Stage::Created | Stage::Destroyed => {
                return Err(Error::AlreadyCreated);
            },
            _ => {},
        }
        let bytes = self.def.to_bytes(self.layout.order);
        self.pending.push(Op::Write(bytes));
        self.pending.push(Op::Control(ControlCall::Create));
        self.caps.freeze();
        self.stage = Stage::Created;
        assert(self@.pending =~= old(self)@.created().pending);
        Ok(())
    }

    /// Asks for the destruction of the device, unless that was done before:
    /// the destroying control call is issued once in a device's life, from
    /// whatever stage.
    pub fn destroy(&mut self)
        requires
            old(self).wf(),
        ensures
            final(self).wf(),
            final(self)@ == old(self)@.destroyed(),
    {
        match self.stage {
            Stage::Destroyed => {},
            _ => {
                self.pending.push(Op::Control(ControlCall::Destroy));
                self.caps.freeze();
                self.stage = Stage::Destroyed;
                assert(self@.pending =~= old(self)@.destroyed().pending);
            },
        }
    }

    /// Writes the records of `batch` to the handle in one write.
    ///
    /// Events can be written only while the device is created: at another
    /// stage the write fails, and the device is left as it was.
    pub fn emit(&mut self, batch: &[EventParams]) -> (r: Result<(), Error>)
        requires
            old(self).wf(),
        ensures
            final(self).wf(),
            old(self)@.writing(final(self)@, r, write_of(old(self)@.layout, batch@)),
    {
        match self.stage {
            Stage::Created => {},
            _ => {
                return Err(Error::WriteError);
            },
        }
        push_write(&mut self.pending, self.layout, batch);
        Ok(())
    }

    /// Writes the records of `batch` to the handle `times` times, each time
    /// in a write of its own.
    ///
    /// As with one write, only while the device is created.
    pub(crate) fn emit_repeated(&mut self, batch: &[EventParams], times: u32) -> (r: Result<(), Error>)
        requires
            old(self).wf(),
        ensures
            final(self).wf(),
            old(self)@.writing(
                final(self)@,
                r,
                writes(old(self)@.layout, repeated(seq![batch@], times as nat)),
            ),
    {
        match self.stage {
            Stage::Created => {},
            _ => {
                return Err(Error::WriteError);
            },
        }
        push_writes(&mut self.pending, self.layout, batch, batch, false, times);
        Ok(())
    }

    /// Writes the records of `first`, then those of `second`, each in a
    /// write of its own, and this `times` times.
    ///
    /// As with one write, only while the device is created.
    pub(crate) fn emit_pair_repeated(
        &mut self,
        first: &[EventParams],
        second: &[EventParams],
        times: u32,
    ) -> (r: Result<(), Error>)
        requires
            old(self).wf(),
        ensures
            final(self).wf(),
            old(self)@.writing(
                final(self)@,
                r,
                writes(old(self)@.layout, repeated(seq![first@, second@], times as nat)),
            ),
    {
        match self.stage {
            Stage::Created => {},
            _ => {
                return Err(Error::WriteError);
            },
        }
        push_writes(&mut self.pending, self.layout, first, second, true, times);
        Ok(())
    }

    /// Asks for a pause of `nanos` nanoseconds between the operations before
    /// it and those behind it.
    ///
    /// As with events, only while the device is created.
    pub(crate) fn pause(&mut self, nanos: u64) -> (r: Result<(), Error>)
        requires
            old(self).wf(),
        ensures
            final(self).wf(),
            old(self)@.writing(final(self)@, r, seq![OpModel::Sleep(nanos)]),
    {
        match self.stage {
            Stage::Created => {},
            _ => {
                return Err(Error::WriteError);
            },
        }
        self.pending.push(Op::Sleep(nanos));
        assert(self@.pending =~= old(self)@.pending + seq![OpModel::Sleep(nanos)]);
        Ok(())
    }

    /// Hands the pending operations to the driver, in their order, and
    /// leaves none pending.
    pub fn take_pending(&mut self) -> (ops: Vec<Op>)
        requires
            old(self).wf(),
        ensures
            final(self).wf(),
            models(ops@) == old(self)@.pending,
            final(self)@ == (DeviceModel { pending: Seq::<OpModel>::empty(), ..old(self)@ }),
    {
        let mut ops: Vec<Op> = Vec::new();
        core::mem::swap(&mut ops, &mut self.pending);
        assert(models(self.pending@) =~= Seq::<OpModel>::empty());
        ops
    }
}

} // verus!
