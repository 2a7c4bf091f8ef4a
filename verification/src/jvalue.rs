use vstd::prelude::*;
use crate::object::JObject;
use crate::kind::Kind;
use crate::slot::{
    Arg, boolean_slot, byte_slot, char_slot, encode_boolean, encode_byte, encode_char, encode_float,
    encode_int, encode_long, encode_short, float_slot, int_slot, long_slot, short_slot,
};

verus! {

/// A value to hand to the runtime, with its kind. A floating-point number is
/// held by its bit pattern. An object is held by a reference to its handle,
/// which the value does not own.
#[derive(Clone, Copy)]
pub enum JValue<'a> {
    JBoolean(bool),
    JByte(i8),
    JChar(char),
    JShort(i16),
    JInt(i32),
    JLong(i64),
    JFloat(u32),
    JDouble(u64),
    JObject(&'a JObject),
}

impl<'a> JValue<'a> {
    /// The slot in which the value crosses the boundary.
    pub open spec fn slot(self) -> u64 {
        match self {
            JValue::JBoolean(v) => boolean_slot(v),
            JValue::JByte(v) => byte_slot(v),
            JValue::JChar(v) => char_slot(v),
            JValue::JShort(v) => short_slot(v),
            JValue::JInt(v) => int_slot(v),
            JValue::JLong(v) => long_slot(v),
            JValue::JFloat(bits) => float_slot(bits),
            JValue::JDouble(bits) => bits,
            JValue::JObject(obj) => obj.ptr,
        }
    }

    /// The kind of the value.
    pub open spec fn kind(self) -> Kind {
        match self {
            JValue::JBoolean(_) => Kind::Boolean,
            JValue::JByte(_) => Kind::Byte,
            JValue::JChar(_) => Kind::Char,
            JValue::JShort(_) => Kind::Short,
            JValue::JInt(_) => Kind::Int,
            JValue::JLong(_) => Kind::Long,
            JValue::JFloat(_) => Kind::Float,
            JValue::JDouble(_) => Kind::Double,
            JValue::JObject(_) => Kind::Object,
        }
    }

    /// The value as an argument: its slot, with its kind.
    pub open spec fn arg(self) -> Arg {
        Arg { kind: self.kind(), bits: self.slot() }
    }

    pub fn get_c_style(&self) -> (arg: Arg)
        ensures
            arg == self.arg(),
    {
        match self {
            JValue::JBoolean(v) => Arg { kind: Kind::Boolean, bits: encode_boolean(*v) },
            JValue::JByte(v) => Arg { kind: Kind::Byte, bits: encode_byte(*v) },
            JValue::JChar(v) => Arg { kind: Kind::Char, bits: encode_char(*v) },
            JValue::JShort(v) => Arg { kind: Kind::Short, bits: encode_short(*v) },
            JValue::JInt(v) => Arg { kind: Kind::Int, bits: encode_int(*v) },
            JValue::JLong(v) => Arg { kind: Kind::Long, bits: encode_long(*v) },
            JValue::JFloat(bits) => Arg { kind: Kind::Float, bits: encode_float(*bits) },
            JValue::JDouble(bits) => Arg { kind: Kind::Double, bits: *bits },
            JValue::JObject(obj) => Arg { kind: Kind::Object, bits: obj.ptr },
        }
    }
}

/// A list of values as arguments, in their order.
pub open spec fn marshalled(args: Seq<JValue>) -> Seq<Arg> {
    Seq::new(args.len(), |i: int| args[i].arg())
}

pub fn marshal(args: &Vec<JValue>) -> (out: Vec<Arg>)
    ensures
        out@ == marshalled(args@),
{
    let mut out: Vec<Arg> = Vec::new();
    let mut i: usize = 0;
    while i < args.len()
        invariant
            i <= args.len(),
            out@ == marshalled(args@.take(i as int)),
        decreases args.len() - i,
    {
        out.push(args[i].get_c_style());
        i += 1;
        assert(out@ =~= marshalled(args@.take(i as int)));
    }
    assert(args@.take(i as int) =~= args@);
    out
}

} // verus!
