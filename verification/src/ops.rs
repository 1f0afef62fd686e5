//! The operations that a device asks its driver to perform on the handle.
//!
//! The library performs no I/O. Each step of a device's life adds the
//! operations that it takes to a list; the driver takes them from there and
//! performs them in their order. When one fails it performs none of those
//! behind it, and reports the error that `Op::failure` gives.

use crate::capability::ControlCall;
use crate::codec::{encoded_batch, EventParams, WireLayout};
use crate::error::Error;
use vstd::prelude::*;

verus! {

/// One operation on the handle of a device.
#[derive(Debug, PartialEq, Eq)]
pub enum Op {
    /// Acquire the handle: open the control device for writing, without
    /// blocking.
    Open,
    /// Issue a control call.
    Control(ControlCall),
    /// Write these bytes in one write.
    Write(Vec<u8>),
    /// Wait for this many nanoseconds.
    Sleep(u64),
}

/// An operation as contracts speak of it: with the bytes of a write as a
/// sequence.
pub enum OpModel {
    Open,
    Control(ControlCall),
    Write(Seq<u8>),
    Sleep(u64),
}

impl View for Op {
    type V = OpModel;

    open spec fn view(&self) -> OpModel {
        match *self {
            Op::Open => OpModel::Open,
            Op::Control(call) => OpModel::Control(call),
            Op::Write(bytes) => OpModel::Write(bytes@),
            Op::Sleep(nanos) => OpModel::Sleep(nanos),
        }
    }
}

/// The operations of `ops` as contracts speak of them.
pub open spec fn models(ops: Seq<Op>) -> Seq<OpModel> {
    ops.map_values(|op: Op| op@)
}

/// The control calls `calls` as operations.
pub open spec fn control_ops(calls: Seq<ControlCall>) -> Seq<OpModel> {
    calls.map_values(|call: ControlCall| OpModel::Control(call))
}

/// One write of the records of `events`.
pub open spec fn write_of(layout: WireLayout, events: Seq<EventParams>) -> Seq<OpModel> {
    seq![OpModel::Write(encoded_batch(layout, events))]
}

/// One write for each batch of `batches`, in their order.
pub open spec fn writes(layout: WireLayout, batches: Seq<Seq<EventParams>>) -> Seq<OpModel> {
    batches.map_values(|batch: Seq<EventParams>| OpModel::Write(encoded_batch(layout, batch)))
}

/// The writes of batches that follow one another are the writes of the
/// first followed by the writes of the second.
pub proof fn lemma_writes_concat(
    layout: WireLayout,
    a: Seq<Seq<EventParams>>,
    b: Seq<Seq<EventParams>>,
)
    ensures
        writes(layout, a + b) == writes(layout, a) + writes(layout, b),
{
    assert(writes(layout, a + b) =~= writes(layout, a) + writes(layout, b));
}

/// The error that a failure of `op` amounts to; `None` where a failure is
/// not reported.
///
/// A failed destruction is not reported: it happens while the device is
/// given up, when nothing can be done about it. A pause cannot fail.
pub open spec fn failure_of(op: OpModel) -> Option<Error> {
    match op {
        OpModel::Open => Some(Error::OpenError),
        OpModel::Control(ControlCall::Destroy) => None,
        OpModel::Control(_) => Some(Error::CapabilityError),
        OpModel::Write(_) => Some(Error::WriteError),
        OpModel::Sleep(_) => None,
    }
}

impl Op {
    /// The error to report when this operation has failed, if any.
    pub fn failure(&self) -> (error: Option<Error>)
        ensures
            error == failure_of(self@),
    {
        match self {
            Op::Open => Some(Error::OpenError),
            Op::Control(ControlCall::Destroy) => None,
            Op::Control(_) => Some(Error::CapabilityError),
            Op::Write(_) => Some(Error::WriteError),
            Op::Sleep(_) => None,
        }
    }
}

} // verus!
