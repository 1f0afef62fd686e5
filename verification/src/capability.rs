//! The capabilities of a device: which event types and codes it will emit.
//!
//! The kernel drops an event whose type or code the device has not declared
//! before its creation. A code is declared by two control calls: one that
//! enables the event type that owns the code, and one that enables the code.
//! The registry issues the first only once for each event type, and each
//! code's call only once.

use crate::error::Error;
use crate::key_codes::{EV_KEY, EV_REL};
use vstd::prelude::*;

verus! {

/// A control call on the handle of a device.
#[derive(PartialEq, Eq, Structural, Copy, Clone, Debug)]
pub enum ControlCall {
    /// Enables an event type.
    EnableEventType(u16),
    /// Enables a key or a button.
    EnableKey(u16),
    /// Enables a relative axis.
    EnableRelative(u16),
    /// Creates the device from what was declared.
    Create,
    /// Destroys the device.
    Destroy,
}

/// Whether the codes of the event type `kind` can be enabled: those of keys
/// and those of relative axes can.
pub open spec fn supports(kind: u16) -> bool {
    kind == EV_KEY || kind == EV_REL
}

/// The control call that enables the code `code` of the event type `kind`.
pub open spec fn code_call(kind: u16, code: u16) -> ControlCall
    recommends
        supports(kind),
{
    if kind == EV_KEY {
        ControlCall::EnableKey(code)
    } else {
        ControlCall::EnableRelative(code)
    }
}

/// The event type that owns the code which `call` enables, where `call`
/// enables a code.
pub open spec fn owner(call: ControlCall) -> Option<u16> {
    match call {
        ControlCall::EnableKey(_) => Some(EV_KEY),
        ControlCall::EnableRelative(_) => Some(EV_REL),
        _ => None,
    }
}

/// The event type that `call` enables, where `call` enables an event type.
pub open spec fn enabled_type(call: ControlCall) -> Option<u16> {
    match call {
        ControlCall::EnableEventType(kind) => Some(kind),
        _ => None,
    }
}

/// The event type that the call at the place `i` of `calls` enables.
pub open spec fn type_at(calls: Seq<ControlCall>, i: int) -> Option<u16> {
    enabled_type(calls[i])
}

/// The event type that owns the code which the call at the place `i` of
/// `calls` enables.
pub open spec fn owner_at(calls: Seq<ControlCall>, i: int) -> Option<u16> {
    owner(calls[i])
}

/// Whether a code of the event type `kind` is enabled by one of `calls`.
pub open spec fn has_code_of(calls: Seq<ControlCall>, kind: u16) -> bool {
    exists|i: int| 0 <= i < calls.len() && owner(#[trigger] calls[i]) == Some(kind)
}

/// How often `call` occurs in `calls`.
pub open spec fn occurrences(calls: Seq<ControlCall>, call: ControlCall) -> nat
    decreases calls.len(),
{
    if calls.len() == 0 {
        0
    } else {
        occurrences(calls.drop_last(), call) + if calls.last() == call {
            1nat
        } else {
            0nat
        }
    }
}

/// The calls that registering `(kind, code)` adds to the calls `issued`: the
/// one that enables the event type unless it was issued, then the one that
/// enables the code unless it was issued. A registration that is refused,
/// because the codes of `kind` cannot be enabled, adds none.
pub open spec fn calls_to_register(issued: Seq<ControlCall>, kind: u16, code: u16) -> Seq<
    ControlCall,
> {
    let first = if issued.contains(ControlCall::EnableEventType(kind)) {
        Seq::<ControlCall>::empty()
    } else {
        seq![ControlCall::EnableEventType(kind)]
    };
    let second = if issued.contains(code_call(kind, code)) {
        Seq::<ControlCall>::empty()
    } else {
        seq![code_call(kind, code)]
    };
    if supports(kind) {
        first + second
    } else {
        Seq::empty()
    }
}

/// Whether every pair of `pairs` has an event type whose codes can be
/// enabled.
pub open spec fn all_supported(pairs: Seq<(u16, u16)>) -> bool {
    forall|i: int| 0 <= i < pairs.len() ==> supports(#[trigger] pairs[i].0)
}

/// Whether one of the pairs of `pairs` has the event type `kind`.
pub open spec fn names_type(pairs: Seq<(u16, u16)>, kind: u16) -> bool {
    exists|i: int| 0 <= i < pairs.len() && (#[trigger] pairs[i]).0 == kind
}

/// The calls that registering the pairs of `pairs`, each an event type and a
/// code, in their order adds to the calls `issued`.
pub open spec fn calls_to_register_all(issued: Seq<ControlCall>, pairs: Seq<(u16, u16)>) -> Seq<
    ControlCall,
>
    decreases pairs.len(),
{
    if pairs.len() == 0 {
        Seq::empty()
    } else {
        let before = calls_to_register_all(issued, pairs.drop_last());
        before + calls_to_register(issued + before, pairs.last().0, pairs.last().1)
    }
}

/// What a sequence of control calls must be like to come from registrations:
/// no call occurs twice, the call that enables an event type is followed at
/// once by one that enables a code of that type, and a call that enables a
/// code comes after the one that enables its type.
#[verifier::opaque]
pub open spec fn well_ordered(calls: Seq<ControlCall>) -> bool {
    &&& calls.no_duplicates()
    &&& forall|i: int|
        0 <= i < calls.len() ==> calls[i] != ControlCall::Create && calls[i]
            != ControlCall::Destroy
    &&& forall|i: int|
        0 <= i < calls.len() ==> (#[trigger] type_at(calls, i) matches Some(kind) ==> supports(kind)
            && i + 1 < calls.len() && owner_at(calls, i + 1) == Some(kind))
    &&& forall|i: int|
        0 <= i < calls.len() ==> (#[trigger] owner_at(calls, i) matches Some(kind) ==> exists|
            j: int,
        |
            0 <= j < i && #[trigger] calls[j] == ControlCall::EnableEventType(kind))
}

/// The capabilities that a device has declared, with the control calls that
/// declared them.
#[derive(Debug)]
pub struct CapabilityRegistry {
    frozen: bool,
    issued: Vec<ControlCall>,
}

impl CapabilityRegistry {
    /// The control calls issued so far, in their order.
    pub closed spec fn issued(self) -> Seq<ControlCall> {
        self.issued@
    }

    /// Whether the device is created, after which nothing can be registered.
    pub closed spec fn is_frozen(self) -> bool {
        self.frozen
    }

    /// The pairs of an event type and a code that are registered.
    pub open spec fn capability_set(self) -> Set<(u16, u16)> {
        Set::new(|p: (u16, u16)| supports(p.0) && self.issued().contains(code_call(p.0, p.1)))
    }

    /// The registry's invariant.
    pub open spec fn wf(self) -> bool {
        well_ordered(self.issued())
    }

    /// A registry with nothing registered.
    pub fn new() -> (r: Self)
        ensures
            r.wf(),
            !r.is_frozen(),
            r.issued() == Seq::<ControlCall>::empty(),
    {
        reveal(well_ordered);
        CapabilityRegistry { frozen: false, issued: Vec::new() }
    }

    fn has_issued(&self, call: ControlCall) -> (found: bool)
        ensures
            found == self.issued().contains(call),
    {
        let mut i: usize = 0;
        while i < self.issued.len()
            invariant
                i <= self.issued.len(),
                forall|k: int| 0 <= k < i ==> self.issued@[k] != call,
            decreases self.issued.len() - i,
        {
            if self.issued[i] == call {
                return true;
            }
            i += 1;
        }
        false
    }

    /// Whether the event type `kind` is enabled.
    pub fn is_enabled(&self, kind: u16) -> (enabled: bool)
        ensures
            enabled == self.issued().contains(ControlCall::EnableEventType(kind)),
    {
        self.has_issued(ControlCall::EnableEventType(kind))
    }

    /// Whether the code `code` of the event type `kind` is registered.
    pub fn is_registered(&self, kind: u16, code: u16) -> (registered: bool)
        ensures
            registered == self.capability_set().contains((kind, code)),
    {
        if kind == EV_KEY {
            self.has_issued(ControlCall::EnableKey(code))
        } else if kind == EV_REL {
            self.has_issued(ControlCall::EnableRelative(code))
        } else {
            false
        }
    }

    /// Whether the device is created, after which nothing can be registered.
    pub fn frozen(&self) -> (frozen: bool)
        ensures
            frozen == self.is_frozen(),
    {
        self.frozen
    }

    /// The control calls issued so far, in their order.
    pub fn calls(&self) -> (calls: Vec<ControlCall>)
        ensures
            calls@ == self.issued(),
    {
        let mut calls: Vec<ControlCall> = Vec::new();
        let mut i: usize = 0;
        while i < self.issued.len()
            invariant
                i <= self.issued.len(),
                calls@ =~= self.issued@.take(i as int),
            decreases self.issued.len() - i,
        {
            calls.push(self.issued[i]);
            i += 1;
        }
        assert(self.issued@.take(i as int) =~= self.issued@);
        calls
    }

    /// Registers the code `code` of the event type `kind`, and returns the
    /// control calls that this takes, in their order.
    ///
    /// Once the device is created nothing can be registered. Only keys and
    /// relative axes can be: no control call enables a code of another type.
    /// What is registered already takes no call again.
    pub fn register(&mut self, kind: u16, code: u16) -> (r: Result<Vec<ControlCall>, Error>)
        requires
            old(self).wf(),
        ensures
            final(self).wf(),
            final(self).is_frozen() == old(self).is_frozen(),
            old(self).is_frozen() ==> r == Err::<Vec<ControlCall>, Error>(Error::AlreadyCreated),
            !old(self).is_frozen() && !supports(kind) ==> r == Err::<Vec<ControlCall>, Error>(
                Error::CapabilityError,
            ),
            !old(self).is_frozen() && supports(kind) ==> r is Ok,
            r is Err ==> final(self).issued() == old(self).issued(),
            r matches Ok(calls) ==> calls@ == calls_to_register(old(self).issued(), kind, code)
                && final(self).issued() == old(self).issued() + calls@
                && final(self).capability_set() == old(self).capability_set().insert((kind, code)),
    {
        if self.frozen {
            return Err(Error::AlreadyCreated);
        }
        if kind != EV_KEY && kind != EV_REL {
            return Err(Error::CapabilityError);
        }
        let enable_type = ControlCall::EnableEventType(kind);
        let enable_code = if kind == EV_KEY {
            ControlCall::EnableKey(code)
        } else {
            ControlCall::EnableRelative(code)
        };
        let mut calls: Vec<ControlCall> = Vec::new();
        let type_issued = self.has_issued(enable_type);
        let code_issued = self.has_issued(enable_code);
        if !type_issued {
            self.issued.push(enable_type);
            calls.push(enable_type);
        }
        if !code_issued {
            self.issued.push(enable_code);
            calls.push(enable_code);
        }
        proof {
            let before = old(self).issued();
            assert(calls@ =~= calls_to_register(before, kind, code));
            assert(self.issued@ =~= before + calls@);
            lemma_register_keeps_order(before, kind, code);
            lemma_register_adds(before, kind, code);
            assert(final(self).capability_set() =~= old(self).capability_set().insert(
                (kind, code),
            )) by {
                assert forall|p: (u16, u16)|
                    final(self).capability_set().contains(p) == old(
                        self,
                    ).capability_set().insert((kind, code)).contains(p) by {
                    if supports(p.0) && p != (kind, code) {
                        assert(code_call(p.0, p.1) != code_call(kind, code));
                    }
                }
            }
        }
        Ok(calls)
    }

    /// Closes the registry: the device is created, and what it can emit is
    /// fixed from now on.
    pub fn freeze(&mut self)
        ensures
            final(self).is_frozen(),
            final(self).issued() == old(self).issued(),
    {
        self.frozen = true;
    }
}

/// Registering a code keeps the calls in order.
pub proof fn lemma_register_keeps_order(issued: Seq<ControlCall>, kind: u16, code: u16)
    requires
        well_ordered(issued),
    ensures
        well_ordered(issued + calls_to_register(issued, kind, code)),
{
    if !supports(kind) {
        assert(issued + calls_to_register(issued, kind, code) =~= issued);
        return ;
    }
    reveal(well_ordered);
    let enable_type = ControlCall::EnableEventType(kind);
    let enable_code = code_call(kind, code);
    let new = calls_to_register(issued, kind, code);
    let after = issued + new;
    let type_issued = issued.contains(enable_type);
    let code_issued = issued.contains(enable_code);
    assert(owner(enable_code) == Some(kind));
    if code_issued {
        let i = choose|i: int| 0 <= i < issued.len() && issued[i] == enable_code;
        assert(owner_at(issued, i) == Some(kind));
        assert(type_issued);
    }
    assert forall|i: int| 0 <= i < after.len() implies (#[trigger] owner_at(after, i) matches Some(
        k,
    ) ==> exists|j: int| 0 <= j < i && #[trigger] after[j] == ControlCall::EnableEventType(k)) by {
        if owner_at(after, i) is Some {
            let k = owner_at(after, i)->0;
            if i < issued.len() {
                assert(after[i] == issued[i]);
                assert(owner_at(issued, i) == Some(k));
                let j = choose|j: int|
                    0 <= j < i && #[trigger] issued[j] == ControlCall::EnableEventType(k);
                assert(after[j] == ControlCall::EnableEventType(k));
            } else {
                assert(after[i] == enable_code);
                if type_issued {
                    let j = choose|j: int| 0 <= j < issued.len() && issued[j] == enable_type;
                    assert(after[j] == ControlCall::EnableEventType(k));
                } else {
                    assert(after[issued.len() as int] == ControlCall::EnableEventType(k));
                }
            }
        }
    }
    assert forall|i: int| 0 <= i < after.len() implies (#[trigger] type_at(after, i) matches Some(
        k,
    ) ==> supports(k) && i + 1 < after.len() && owner_at(after, i + 1) == Some(k)) by {
        if i < issued.len() {
            assert(after[i] == issued[i]);
            if type_at(issued, i) is Some {
                assert(after[i + 1] == issued[i + 1]);
                assert(owner_at(issued, i + 1) == owner_at(after, i + 1));
            }
        }
    }
    assert(after.no_duplicates()) by {
        assert forall|i: int, j: int| 0 <= i < after.len() && 0 <= j < after.len() && i != j implies
            after[i] != after[j] by {
            if i < issued.len() {
                assert(after[i] == issued[i]);
            }
            if j < issued.len() {
                assert(after[j] == issued[j]);
            }
        }
    }
    assert forall|i: int| 0 <= i < after.len() implies #[trigger] after[i] != ControlCall::Create
        && after[i] != ControlCall::Destroy by {
        if i < issued.len() {
            assert(after[i] == issued[i]);
        }
    }
}

/// What registering a code adds to the calls: the call that enables the
/// code and the one that enables its event type, where they were not there,
/// and nothing else.
pub proof fn lemma_register_adds(issued: Seq<ControlCall>, kind: u16, code: u16)
    requires
        supports(kind),
    ensures
        forall|call: ControlCall|
            (issued + calls_to_register(issued, kind, code)).contains(call) <==> issued.contains(
                call,
            ) || call == code_call(kind, code) || call == ControlCall::EnableEventType(kind),
{
    let enable_type = ControlCall::EnableEventType(kind);
    let enable_code = code_call(kind, code);
    let after = issued + calls_to_register(issued, kind, code);
    assert forall|call: ControlCall|
        after.contains(call) <==> issued.contains(call) || call == enable_code || call
            == enable_type by {
        if issued.contains(call) {
            let i = choose|i: int| 0 <= i < issued.len() && issued[i] == call;
            assert(after[i] == call);
        }
        if after.contains(call) {
            let i = choose|i: int| 0 <= i < after.len() && after[i] == call;
            if i < issued.len() {
                assert(issued[i] == call);
            }
        }
        if issued.contains(enable_type) {
            let i = choose|i: int| 0 <= i < issued.len() && issued[i] == enable_type;
            assert(after[i] == enable_type);
        } else {
            assert(after[issued.len() as int] == enable_type);
        }
        if issued.contains(enable_code) {
            let i = choose|i: int| 0 <= i < issued.len() && issued[i] == enable_code;
            assert(after[i] == enable_code);
        } else {
            assert(after[after.len() - 1] == enable_code);
        }
    }
}

/// Registrations, however many and in whatever order, leave the calls in
/// order, and enable a code of an event type exactly where the codes of that
/// type can be enabled and a pair names the type.
pub proof fn lemma_registrations_keep_order(pairs: Seq<(u16, u16)>, kind: u16)
    ensures
        well_ordered(calls_to_register_all(Seq::empty(), pairs)),
        has_code_of(calls_to_register_all(Seq::empty(), pairs), kind) <==> supports(kind)
            && names_type(pairs, kind),
    decreases pairs.len(),
{
    let calls = calls_to_register_all(Seq::empty(), pairs);
    if pairs.len() == 0 {
        reveal(well_ordered);
    } else {
        let head = pairs.drop_last();
        let last = pairs.last();
        let before = calls_to_register_all(Seq::empty(), head);
        lemma_registrations_keep_order(head, kind);
        lemma_register_keeps_order(before, last.0, last.1);
        assert(Seq::<ControlCall>::empty() + before =~= before);
        assert(calls =~= before + calls_to_register(before, last.0, last.1));
        if supports(last.0) {
            lemma_register_adds(before, last.0, last.1);
        } else {
            assert(calls =~= before);
        }
        if has_code_of(calls, kind) {
            let i = choose|i: int| 0 <= i < calls.len() && owner(#[trigger] calls[i]) == Some(kind);
            assert(calls.contains(calls[i]));
            if before.contains(calls[i]) {
                let j = choose|j: int| 0 <= j < before.len() && before[j] == calls[i];
                assert(owner(before[j]) == Some(kind));
                let k = choose|k: int| 0 <= k < head.len() && (#[trigger] head[k]).0 == kind;
                assert(pairs[k].0 == kind);
            } else {
                assert(calls[i] == code_call(last.0, last.1));
                assert(pairs[pairs.len() - 1].0 == kind);
            }
        }
        if supports(kind) && names_type(pairs, kind) {
            let k = choose|k: int| 0 <= k < pairs.len() && (#[trigger] pairs[k]).0 == kind;
            if k < head.len() {
                assert(head[k].0 == kind);
                let j = choose|j: int|
                    0 <= j < before.len() && owner(#[trigger] before[j]) == Some(kind);
                assert(before.contains(before[j]));
                assert(calls[j] == before[j]);
                assert(owner(calls[j]) == Some(kind));
            } else {
                let c = code_call(last.0, last.1);
                let i = choose|i: int| 0 <= i < calls.len() && calls[i] == c;
                assert(owner(calls[i]) == Some(kind));
            }
        }
    }
}

/// Where no call occurs twice, a call occurs once or not at all.
pub proof fn lemma_occurrences_without_duplicates(calls: Seq<ControlCall>, call: ControlCall)
    requires
        calls.no_duplicates(),
    ensures
        occurrences(calls, call) == if calls.contains(call) {
            1nat
        } else {
            0nat
        },
    decreases calls.len(),
{
    if calls.len() > 0 {
        let head = calls.drop_last();
        lemma_occurrences_without_duplicates(head, call);
        if head.contains(call) {
            let i = choose|i: int| 0 <= i < head.len() && head[i] == call;
            assert(calls[i] == call);
        }
        if calls.contains(call) {
            let i = choose|i: int| 0 <= i < calls.len() && calls[i] == call;
            if i < head.len() {
                assert(head[i] == call);
            }
        }
        if calls.last() == call {
            assert(calls[calls.len() - 1] == call);
        }
    }
}

/// In calls that are in order, the call that enables an event type occurs
/// once where a code of that type is enabled, and not at all elsewhere.
pub proof fn lemma_enabled_once(issued: Seq<ControlCall>, kind: u16)
    requires
        well_ordered(issued),
    ensures
        occurrences(issued, ControlCall::EnableEventType(kind)) == if has_code_of(issued, kind) {
            1nat
        } else {
            0nat
        },
{
    reveal(well_ordered);
    let enable = ControlCall::EnableEventType(kind);
    lemma_occurrences_without_duplicates(issued, enable);
    if issued.contains(enable) {
        let i = choose|i: int| 0 <= i < issued.len() && issued[i] == enable;
        assert(type_at(issued, i) == Some(kind));
        assert(owner_at(issued, i + 1) == Some(kind));
        assert(owner(issued[i + 1]) == Some(kind));
    }
    if has_code_of(issued, kind) {
        let i = choose|i: int| 0 <= i < issued.len() && owner(#[trigger] issued[i]) == Some(kind);
        assert(owner_at(issued, i) == Some(kind));
        let j = choose|j: int| 0 <= j < i && #[trigger] issued[j] == enable;
    }
}

/// An event type is enabled exactly once, however many codes of that type
/// are registered and however often, and not at all unless a code of that
/// type is registered: among the control calls that registering `pairs`
/// takes, the one that enables `kind` occurs once where a pair names `kind`
/// and the codes of `kind` can be enabled, and does not occur elsewhere.
pub proof fn lemma_event_type_enabled_once(pairs: Seq<(u16, u16)>, kind: u16)
    ensures
        occurrences(
            calls_to_register_all(Seq::empty(), pairs),
            ControlCall::EnableEventType(kind),
        ) == if supports(kind) && names_type(pairs, kind) {
            1nat
        } else {
            0nat
        },
{
    lemma_registrations_keep_order(pairs, kind);
    lemma_enabled_once(calls_to_register_all(Seq::empty(), pairs), kind);
}

/// Registering what was registered just before takes no control call.
pub proof fn lemma_register_again(issued: Seq<ControlCall>, kind: u16, code: u16)
    ensures
        calls_to_register(issued + calls_to_register(issued, kind, code), kind, code)
            == Seq::<ControlCall>::empty(),
{
    if supports(kind) {
        let after = issued + calls_to_register(issued, kind, code);
        lemma_register_adds(issued, kind, code);
        assert(after.contains(ControlCall::EnableEventType(kind)));
        assert(after.contains(code_call(kind, code)));
        assert(calls_to_register(after, kind, code) =~= Seq::<ControlCall>::empty());
    }
}

} // verus!
