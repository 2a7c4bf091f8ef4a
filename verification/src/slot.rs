use vstd::prelude::*;
use crate::kind::Kind;

verus! {

// Every value crosses the boundary in a slot of 64 bits, as the runtime's own
// value union holds it: a kind narrower than the slot fills its low bits, in
// two's complement where it is signed, and the other bits are zero.

/// The slot of a boolean: the runtime's canonical byte for true, or zero.
pub open spec fn boolean_slot(v: bool) -> u64 {
    if v {
        1
    } else {
        0
    }
}

/// A slot read as a boolean: true where its low byte is anything but zero.
pub open spec fn slot_boolean(slot: u64) -> bool {
    slot % 0x100 != 0
}

pub open spec fn byte_slot(v: i8) -> u64 {
    (v as int % 0x100) as u64
}

pub open spec fn slot_byte(slot: u64) -> i8 {
    let low = slot as int % 0x100;
    if low < 0x80 {
        low as i8
    } else {
        (low - 0x100) as i8
    }
}

/// The slot of a character: the low sixteen bits of its code point.
pub open spec fn char_slot(v: char) -> u64 {
    (v as int % 0x1_0000) as u64
}

/// A slot read as a character: the one whose code point is the slot's low byte.
pub open spec fn slot_char(slot: u64) -> char {
    (slot as int % 0x100) as char
}

pub open spec fn short_slot(v: i16) -> u64 {
    (v as int % 0x1_0000) as u64
}

pub open spec fn slot_short(slot: u64) -> i16 {
    let low = slot as int % 0x1_0000;
    if low < 0x8000 {
        low as i16
    } else {
        (low - 0x1_0000) as i16
    }
}

pub open spec fn int_slot(v: i32) -> u64 {
    (v as int % 0x1_0000_0000) as u64
}

pub open spec fn slot_int(slot: u64) -> i32 {
    let low = slot as int % 0x1_0000_0000;
    if low < 0x8000_0000 {
        low as i32
    } else {
        (low - 0x1_0000_0000) as i32
    }
}

pub open spec fn long_slot(v: i64) -> u64 {
    (v as int % 0x1_0000_0000_0000_0000) as u64
}

pub open spec fn slot_long(slot: u64) -> i64 {
    if slot < 0x8000_0000_0000_0000 {
        slot as i64
    } else {
        (slot - 0x1_0000_0000_0000_0000) as i64
    }
}

/// The slot of a single-precision number, given by its bit pattern.
pub open spec fn float_slot(bits: u32) -> u64 {
    bits as u64
}

pub open spec fn slot_float(slot: u64) -> u32 {
    (slot as int % 0x1_0000_0000) as u32
}

/// A slot as it is handed over as an argument: with the kind of the value in
/// it, which says how much of the slot counts.
#[derive(Clone, Copy, Debug, PartialEq, Eq, Structural)]
pub struct Arg {
    pub kind: Kind,
    pub bits: u64,
}

/// Whether two marshalled read as the same value of a kind. A kind narrower
/// than the slot is read from the low bits alone, and a boolean only as zero
/// or not.
pub open spec fn reads_alike(kind: Kind, a: u64, b: u64) -> bool {
    match kind {
        Kind::Boolean => slot_boolean(a) == slot_boolean(b),
        Kind::Byte => slot_byte(a) == slot_byte(b),
        Kind::Char => slot_char(a) == slot_char(b),
        Kind::Short => slot_short(a) == slot_short(b),
        Kind::Int => slot_int(a) == slot_int(b),
        Kind::Float => slot_float(a) == slot_float(b),
        Kind::Long | Kind::Double | Kind::Object => a == b,
        Kind::Void => true,
    }
}

pub fn encode_boolean(v: bool) -> (slot: u64)
    ensures
        slot == boolean_slot(v),
{
    if v {
        1
    } else {
        0
    }
}

pub fn decode_boolean(slot: u64) -> (v: bool)
    ensures
        v == slot_boolean(slot),
{
    slot % 0x100 != 0
}

pub fn encode_byte(v: i8) -> (slot: u64)
    ensures
        slot == byte_slot(v),
{
    if v >= 0 {
        v as u64
    } else {
        (v as i64 + 0x100) as u64
    }
}

pub fn decode_byte(slot: u64) -> (v: i8)
    ensures
        v == slot_byte(slot),
{
    let low: u64 = slot % 0x100;
    if low < 0x80 {
        low as i8
    } else {
        (low as i64 - 0x100) as i8
    }
}

pub fn encode_char(v: char) -> (slot: u64)
    ensures
        slot == char_slot(v),
{
    (v as u32 % 0x1_0000) as u64
}

pub fn decode_char(slot: u64) -> (v: char)
    ensures
        v == slot_char(slot),
{
    ((slot % 0x100) as u8) as char
}

pub fn encode_short(v: i16) -> (slot: u64)
    ensures
        slot == short_slot(v),
{
    if v >= 0 {
        v as u64
    } else {
        (v as i64 + 0x1_0000) as u64
    }
}

pub fn decode_short(slot: u64) -> (v: i16)
    ensures
        v == slot_short(slot),
{
    let low: u64 = slot % 0x1_0000;
    if low < 0x8000 {
        low as i16
    } else {
        (low as i64 - 0x1_0000) as i16
    }
}

pub fn encode_int(v: i32) -> (slot: u64)
    ensures
        slot == int_slot(v),
{
    if v >= 0 {
        v as u64
    } else {
        (v as i64 + 0x1_0000_0000) as u64
    }
}

pub fn decode_int(slot: u64) -> (v: i32)
    ensures
        v == slot_int(slot),
{
    let low: u64 = slot % 0x1_0000_0000;
    if low < 0x8000_0000 {
        low as i32
    } else {
        (low as i64 - 0x1_0000_0000) as i32
    }
}

pub fn encode_long(v: i64) -> (slot: u64)
    ensures
        slot == long_slot(v),
{
    if v >= 0 {
        v as u64
    } else {
        (v as i128 + 0x1_0000_0000_0000_0000) as u64
    }
}

pub fn decode_long(slot: u64) -> (v: i64)
    ensures
        v == slot_long(slot),
{
    if slot < 0x8000_0000_0000_0000 {
        slot as i64
    } else {
        (slot as i128 - 0x1_0000_0000_0000_0000) as i64
    }
}

pub fn encode_float(bits: u32) -> (slot: u64)
    ensures
        slot == float_slot(bits),
{
    bits as u64
}

pub fn decode_float(slot: u64) -> (bits: u32)
    ensures
        bits == slot_float(slot),
{
    (slot % 0x1_0000_0000) as u32
}

} // verus!
