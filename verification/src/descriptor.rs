//! The description of a device that the kernel is given when the device is
//! created: its name, its identity and the limits of its absolute axes.

use crate::codec::{i32_bytes, push_i32, push_u16, push_u32, u16_bytes, u32_bytes, ByteOrder};
use crate::error::Error;
use crate::key_codes::ABS_CNT;
use vstd::prelude::*;
use vstd::string::StringSliceAdditionalSpecFns;

verus! {

/// The size of the field that holds a device's name, in bytes. The name ends
/// with a zero byte, so a name has at most 79 bytes.
pub const UINPUT_MAX_NAME_SIZE: usize = 80;

/// The number of bytes in the description of a device.
pub const DESCRIPTION_SIZE: usize = 1116;

/// The identity of a device: passed through to the kernel as it is.
#[allow(non_camel_case_types)]
#[derive(PartialEq, Eq, Structural, Debug, Clone, Copy)]
pub struct input_id {
    pub bustype: u16,
    pub vendor: u16,
    pub product: u16,
    pub version: u16,
}

/// The description of a device.
#[allow(non_camel_case_types)]
#[derive(Debug, Clone, Copy, PartialEq, Eq)]
pub struct uinput_user_dev {
    pub name: [i8; UINPUT_MAX_NAME_SIZE],
    pub id: input_id,
    pub ff_effects_max: u32,
    pub absmax: [i32; ABS_CNT],
    pub absmin: [i32; ABS_CNT],
    pub absfuzz: [i32; ABS_CNT],
    pub absflat: [i32; ABS_CNT],
}

/// The signed character that has the bits of the byte `b`.
pub open spec fn char_of_byte(b: u8) -> i8 {
    if b < 128 {
        b as i8
    } else {
        (b - 256) as i8
    }
}

/// The byte that has the bits of the signed character `c`.
pub open spec fn byte_of_char(c: i8) -> u8 {
    if c >= 0 {
        c as u8
    } else {
        (c + 256) as u8
    }
}

/// The name field after `bytes` has been written to it as a name: the bytes
/// of the name, a zero byte, and behind it what the field held before.
pub open spec fn name_field(before: Seq<i8>, bytes: Seq<u8>) -> Seq<i8> {
    Seq::new(
        before.len(),
        |i: int|
            if i < bytes.len() {
                char_of_byte(bytes[i])
            } else if i == bytes.len() {
                0i8
            } else {
                before[i]
            },
    )
}

/// The bytes of the characters of a name field.
pub open spec fn chars_bytes(chars: Seq<i8>) -> Seq<u8> {
    Seq::new(chars.len(), |i: int| byte_of_char(chars[i]))
}

/// The bytes of the numbers of `values`, one number after the other.
pub open spec fn i32s_bytes(order: ByteOrder, values: Seq<i32>) -> Seq<u8>
    decreases values.len(),
{
    if values.len() == 0 {
        Seq::empty()
    } else {
        i32s_bytes(order, values.drop_last()) + i32_bytes(order, values.last())
    }
}

/// The bytes of an identity: its four numbers in the order of the fields.
pub open spec fn id_bytes(order: ByteOrder, id: input_id) -> Seq<u8> {
    u16_bytes(order, id.bustype) + u16_bytes(order, id.vendor) + u16_bytes(order, id.product)
        + u16_bytes(order, id.version)
}

/// The bytes of a description: the fields in their order, each number in the
/// given byte order.
pub open spec fn description_bytes(order: ByteOrder, d: uinput_user_dev) -> Seq<u8> {
    chars_bytes(d.name@) + id_bytes(order, d.id) + u32_bytes(order, d.ff_effects_max) + i32s_bytes(
        order,
        d.absmax@,
    ) + i32s_bytes(order, d.absmin@) + i32s_bytes(order, d.absfuzz@) + i32s_bytes(
        order,
        d.absflat@,
    )
}

/// The numbers of `values` take four bytes each.
pub proof fn lemma_i32s_length(order: ByteOrder, values: Seq<i32>)
    ensures
        i32s_bytes(order, values).len() == 4 * values.len(),
    decreases values.len(),
{
    if values.len() > 0 {
        lemma_i32s_length(order, values.drop_last());
    }
}

/// A description has the same length whatever it holds.
pub proof fn lemma_description_length(order: ByteOrder, d: uinput_user_dev)
    ensures
        description_bytes(order, d).len() == DESCRIPTION_SIZE,
{
    lemma_i32s_length(order, d.absmax@);
    lemma_i32s_length(order, d.absmin@);
    lemma_i32s_length(order, d.absfuzz@);
    lemma_i32s_length(order, d.absflat@);
}

fn push_i32s(out: &mut Vec<u8>, order: ByteOrder, values: &[i32; ABS_CNT])
    ensures
        final(out)@ == old(out)@ + i32s_bytes(order, values@),
{
    let mut i: usize = 0;
    assert(values@.take(0) =~= Seq::<i32>::empty());
    assert(out@ =~= old(out)@ + i32s_bytes(order, values@.take(0)));
    while i < ABS_CNT
        invariant
            i <= ABS_CNT,
            values@.len() == ABS_CNT,
            out@ =~= old(out)@ + i32s_bytes(order, values@.take(i as int)),
        decreases ABS_CNT - i,
    {
        push_i32(out, order, values[i]);
        proof {
            assert(values@.take(i + 1).drop_last() =~= values@.take(i as int));
            assert(values@.take(i + 1).last() == values@[i as int]);
        }
        i += 1;
    }
    assert(values@.take(ABS_CNT as int) =~= values@);
}

impl uinput_user_dev {
    /// Whether every field holds zero.
    pub open spec fn is_zeroed(self) -> bool {
        &&& forall|i: int| 0 <= i < UINPUT_MAX_NAME_SIZE ==> self.name@[i] == 0
        &&& self.id == (input_id { bustype: 0, vendor: 0, product: 0, version: 0 })
        &&& self.ff_effects_max == 0
        &&& forall|i: int| 0 <= i < ABS_CNT ==> self.absmax@[i] == 0
        &&& forall|i: int| 0 <= i < ABS_CNT ==> self.absmin@[i] == 0
        &&& forall|i: int| 0 <= i < ABS_CNT ==> self.absfuzz@[i] == 0
        &&& forall|i: int| 0 <= i < ABS_CNT ==> self.absflat@[i] == 0
    }

    /// A description in which every field holds zero.
    pub fn zeroed() -> (d: Self)
        ensures
            d.is_zeroed(),
    {
        uinput_user_dev {
            name: [0i8; UINPUT_MAX_NAME_SIZE],
            id: input_id { bustype: 0, vendor: 0, product: 0, version: 0 },
            ff_effects_max: 0,
            absmax: [0i32; ABS_CNT],
            absmin: [0i32; ABS_CNT],
            absfuzz: [0i32; ABS_CNT],
            absflat: [0i32; ABS_CNT],
        }
    }

    /// Writes `value` to the name field, with a zero byte behind it.
    ///
    /// A name that holds a zero byte is refused, and so is one that, with the
    /// zero byte that ends it, does not fit in the field. On an error the
    /// description is left as it was.
    pub fn set_name(&mut self, value: &str) -> (r: Result<(), Error>)
        ensures
            value.spec_bytes().contains(0u8) ==> r == Err::<(), Error>(Error::NameContainsNul),
            !value.spec_bytes().contains(0u8) && value.spec_bytes().len() >= UINPUT_MAX_NAME_SIZE
                ==> r == Err::<(), Error>(Error::NameTooLong),
            !value.spec_bytes().contains(0u8) && value.spec_bytes().len() < UINPUT_MAX_NAME_SIZE
                ==> r is Ok,
            r is Err ==> *final(self) == *old(self),
            r is Ok ==> final(self).name@ == name_field(old(self).name@, value.spec_bytes()),
            final(self).id == old(self).id,
            final(self).ff_effects_max == old(self).ff_effects_max,
            final(self).absmax == old(self).absmax,
            final(self).absmin == old(self).absmin,
            final(self).absfuzz == old(self).absfuzz,
            final(self).absflat == old(self).absflat,
    {
        let bytes = value.as_bytes();
        let mut i: usize = 0;
        while i < bytes.len()
            invariant
                i <= bytes.len(),
                bytes@ == value.spec_bytes(),
                forall|k: int| 0 <= k < i ==> bytes@[k] != 0,
            decreases bytes.len() - i,
        {
            if bytes[i] == 0 {
                assert(bytes@[i as int] == 0u8);
                return Err(Error::NameContainsNul);
            }
            i += 1;
        }
        if bytes.len() >= UINPUT_MAX_NAME_SIZE {
            return Err(Error::NameTooLong);
        }
        let mut k: usize = 0;
        while k < bytes.len()
            invariant
                k <= bytes.len(),
                bytes@ == value.spec_bytes(),
                bytes.len() < UINPUT_MAX_NAME_SIZE,
                self.name@.len() == UINPUT_MAX_NAME_SIZE,
                forall|j: int| 0 <= j < k ==> self.name@[j] == char_of_byte(bytes@[j]),
                forall|j: int| k <= j < UINPUT_MAX_NAME_SIZE ==> self.name@[j] == old(self).name@[j],
                self.id == old(self).id,
                self.ff_effects_max == old(self).ff_effects_max,
                self.absmax == old(self).absmax,
                self.absmin == old(self).absmin,
                self.absfuzz == old(self).absfuzz,
                self.absflat == old(self).absflat,
            decreases bytes.len() - k,
        {
            self.name[k] = signed_char(bytes[k]);
            k += 1;
        }
        self.name[k] = 0;
        assert(self.name@ =~= name_field(old(self).name@, value.spec_bytes()));
        Ok(())
    }

    /// The bytes that describe the device to the kernel.
    pub fn to_bytes(&self, order: ByteOrder) -> (bytes: Vec<u8>)
        ensures
            bytes@ == description_bytes(order, *self),
            bytes@.len() == DESCRIPTION_SIZE,
    {
        let mut bytes: Vec<u8> = Vec::new();
        let mut i: usize = 0;
        while i < UINPUT_MAX_NAME_SIZE
            invariant
                i <= UINPUT_MAX_NAME_SIZE,
                self.name@.len() == UINPUT_MAX_NAME_SIZE,
                bytes@ =~= chars_bytes(self.name@.take(i as int)),
            decreases UINPUT_MAX_NAME_SIZE - i,
        {
            bytes.push(unsigned_byte(self.name[i]));
            i += 1;
        }
        assert(self.name@.take(UINPUT_MAX_NAME_SIZE as int) =~= self.name@);
        push_u16(&mut bytes, order, self.id.bustype);
        push_u16(&mut bytes, order, self.id.vendor);
        push_u16(&mut bytes, order, self.id.product);
        push_u16(&mut bytes, order, self.id.version);
        push_u32(&mut bytes, order, self.ff_effects_max);
        push_i32s(&mut bytes, order, &self.absmax);
        push_i32s(&mut bytes, order, &self.absmin);
        push_i32s(&mut bytes, order, &self.absfuzz);
        push_i32s(&mut bytes, order, &self.absflat);
        proof {
            lemma_description_length(order, *self);
        }
        assert(bytes@ =~= description_bytes(order, *self));
        bytes
    }
}

fn signed_char(b: u8) -> (c: i8)
    ensures
        c == char_of_byte(b),
{
    if b < 128 {
        b as i8
    } else {
        (b as i16 - 256) as i8
    }
}

fn unsigned_byte(c: i8) -> (b: u8)
    ensures
        b == byte_of_char(c),
{
    if c >= 0 {
        c as u8
    } else {
        (c as i16 + 256) as u8
    }
}

} // verus!
