use vstd::prelude::*;
use crate::call::{CallView, Exchange};
use crate::error::JniError;
use crate::kind::{Access, Kind, Operation, Scope};
use crate::protocol::{
    ObjectView, check_call, checked_run, clear_call, collapsed, fallback_object_run,
    fallback_run, get_object_run, get_run, handle_run, is_null_run, lookup_run, refused,
    set_run, static_get_run, static_run, static_set_run, super_run,
};
use crate::slot::{
    Arg, boolean_slot, byte_slot, char_slot, float_slot, int_slot, long_slot, reads_alike, short_slot,
    slot_boolean, slot_byte, slot_char, slot_float, slot_int, slot_long, slot_short,
};

verus! {

/// A boolean comes back from its slot as it went in, and a slot reads as
/// true whatever its low byte holds, as long as that is not zero.
pub proof fn lemma_boolean_round_trip(v: bool, slot: u64)
    ensures
        slot_boolean(boolean_slot(v)) == v,
        slot % 0x100 != 0 ==> slot_boolean(slot) == true,
        slot % 0x100 == 0 ==> slot_boolean(slot) == false,
        slot_boolean(slot) ==> reads_alike(Kind::Boolean, slot, boolean_slot(true)),
{
}

/// A byte comes back from its slot as it went in.
pub proof fn lemma_byte_round_trip(v: i8)
    ensures
        slot_byte(byte_slot(v)) == v,
{
}

/// A character comes back from its slot as it went in, where its code point
/// fits in a byte. Any other comes back as the character of its low byte.
pub proof fn lemma_char_round_trip(v: char)
    ensures
        v as int <= 0xff ==> slot_char(char_slot(v)) == v,
        slot_char(char_slot(v)) as int == v as int % 0x100,
{
}

/// A short comes back from its slot as it went in.
pub proof fn lemma_short_round_trip(v: i16)
    ensures
        slot_short(short_slot(v)) == v,
{
}

/// An int comes back from its slot as it went in.
pub proof fn lemma_int_round_trip(v: i32)
    ensures
        slot_int(int_slot(v)) == v,
{
}

/// A long comes back from its slot as it went in.
pub proof fn lemma_long_round_trip(v: i64)
    ensures
        slot_long(long_slot(v)) == v,
{
}

/// The bit pattern of a single-precision number comes back from its slot as it went in.
pub proof fn lemma_float_round_trip(bits: u32)
    ensures
        slot_float(float_slot(bits)) == bits,
{
}

/// The exchange in which an access that succeeded touched the member: the
/// typed call, which the check of the flag follows.
pub open spec fn touch(t: Seq<Exchange>, end: int) -> Exchange {
    t[end - 2]
}

/// A field written and then read through the same object handle gives the
/// value that was written, provided the runtime keeps it: the slot with which
/// it answers the read reads as the slot that the write handed over.
pub proof fn lemma_set_then_get(
    kind: Kind,
    obj: ObjectView,
    name: Seq<char>,
    sig: Seq<char>,
    value: u64,
    t: Seq<Exchange>,
    i: int,
)
    requires
        0 <= i,
        set_run(kind, obj, name, sig, value, t, i) is Some,
        set_run(kind, obj, name, sig, value, t, i)->0.value is Ok,
        get_run(kind, obj, name, sig, t, set_run(kind, obj, name, sig, value, t, i)->0.end) is Some,
        get_run(kind, obj, name, sig, t, set_run(kind, obj, name, sig, value, t, i)->0.end)->0.value
            is Ok,
        ({
            let written = set_run(kind, obj, name, sig, value, t, i)->0.end;
            let read = get_run(kind, obj, name, sig, t, written)->0.end;
            reads_alike(kind, touch(t, read).reply, touch(t, written).call.args[0].bits)
        }),
    ensures
        ({
            let written = set_run(kind, obj, name, sig, value, t, i)->0.end;
            let read = get_run(kind, obj, name, sig, t, written)->0;
            &&& touch(t, written).call.args == seq![Arg { kind, bits: value }]
            &&& touch(t, written).call.op is Typed
            &&& touch(t, written).call.op->Typed_0 == Access::FieldSet
            &&& touch(t, read.end).call.op is Typed
            &&& touch(t, read.end).call.op->Typed_0 == Access::FieldGet
            &&& reads_alike(kind, read.value->Ok_0, value)
        }),
{
}

/// The same for a static field, written and read through the same class handle.
pub proof fn lemma_static_set_then_get(
    kind: Kind,
    class: u64,
    name: Seq<char>,
    sig: Seq<char>,
    value: u64,
    t: Seq<Exchange>,
    i: int,
)
    requires
        0 <= i,
        static_set_run(kind, class, name, sig, value, t, i) is Some,
        static_set_run(kind, class, name, sig, value, t, i)->0.value is Ok,
        static_get_run(kind, class, name, sig, t, static_set_run(kind, class, name, sig, value, t, i)->0.end)
            is Some,
        static_get_run(
            kind,
            class,
            name,
            sig,
            t,
            static_set_run(kind, class, name, sig, value, t, i)->0.end,
        )->0.value is Ok,
        ({
            let written = static_set_run(kind, class, name, sig, value, t, i)->0.end;
            let read = static_get_run(kind, class, name, sig, t, written)->0.end;
            reads_alike(kind, touch(t, read).reply, touch(t, written).call.args[0].bits)
        }),
    ensures
        ({
            let written = static_set_run(kind, class, name, sig, value, t, i)->0.end;
            let read = static_get_run(kind, class, name, sig, t, written)->0;
            &&& touch(t, written).call == CallView::typed(
                Access::FieldSet,
                Scope::Static,
                kind,
                class,
                touch(t, written).call.member,
                seq![Arg { kind, bits: value }],
            )
            &&& touch(t, read.end).call == CallView::typed(
                Access::FieldGet,
                Scope::Static,
                kind,
                class,
                touch(t, read.end).call.member,
                Seq::empty(),
            )
            &&& reads_alike(kind, read.value->Ok_0, value)
        }),
{
}

/// A slot that reads as the slot of a value reads as that value: with the
/// two laws above, the typed readers give back what the typed writers were
/// given. For a character this holds where its code point fits in a byte.
pub proof fn lemma_reads_alike(slot: u64)
    ensures
        forall|v: bool| #[trigger]
            reads_alike(Kind::Boolean, slot, boolean_slot(v)) ==> slot_boolean(slot) == v,
        forall|v: i8| #[trigger] reads_alike(Kind::Byte, slot, byte_slot(v)) ==> slot_byte(slot) == v,
        forall|v: char|
            v as int <= 0xff && #[trigger] reads_alike(Kind::Char, slot, char_slot(v))
                ==> slot_char(slot) == v,
        forall|v: i16| #[trigger]
            reads_alike(Kind::Short, slot, short_slot(v)) ==> slot_short(slot) == v,
        forall|v: i32| #[trigger] reads_alike(Kind::Int, slot, int_slot(v)) ==> slot_int(slot) == v,
        forall|v: i64| #[trigger]
            reads_alike(Kind::Long, slot, long_slot(v)) ==> slot_long(slot) == v,
        forall|v: u32| #[trigger]
            reads_alike(Kind::Float, slot, float_slot(v)) ==> slot_float(slot) == v,
        forall|v: u64| #[trigger] reads_alike(Kind::Double, slot, v) ==> slot == v,
{
    assert forall|v: char|
        v as int <= 0xff && #[trigger] reads_alike(Kind::Char, slot, char_slot(v)) implies slot_char(
        slot,
    ) == v by {
        lemma_char_round_trip(v);
    }
}

/// A field that is made to refer to an object and then read through the same
/// handle gives a handle on that object, provided the runtime keeps the
/// reference: it answers the read with the reference that the write handed over.
pub proof fn lemma_set_then_get_object(
    obj: ObjectView,
    name: Seq<char>,
    sig: Seq<char>,
    value: u64,
    t: Seq<Exchange>,
    i: int,
)
    requires
        0 <= i,
        value != 0,
        set_run(Kind::Object, obj, name, sig, value, t, i) is Some,
        set_run(Kind::Object, obj, name, sig, value, t, i)->0.value is Ok,
        get_object_run(obj, name, sig, t, set_run(Kind::Object, obj, name, sig, value, t, i)->0.end)
            is Some,
        get_object_run(
            obj,
            name,
            sig,
            t,
            set_run(Kind::Object, obj, name, sig, value, t, i)->0.end,
        )->0.value is Ok,
        ({
            let written = set_run(Kind::Object, obj, name, sig, value, t, i)->0.end;
            let read = get_object_run(obj, name, sig, t, written)->0.end;
            t[read - 3].reply == touch(t, written).call.args[0].bits
        }),
    ensures
        ({
            let written = set_run(Kind::Object, obj, name, sig, value, t, i)->0.end;
            let read = get_object_run(obj, name, sig, t, written)->0;
            &&& t[read.end - 3].call.op is Typed
            &&& t[read.end - 3].call.op->Typed_0 == Access::FieldGet
            &&& read.value->Ok_0.ptr == value
        }),
{
}

/// The order of the two attempts. Where the object's class has no member of
/// instances with the name and signature, the access through the handle is
/// the access to the static member, with any failure reported as
/// `MemberNotFound`. Where it has no static member either, no typed operation
/// is called, and the result is that one failure.
pub proof fn lemma_fallback_order(
    access: Access,
    kind: Kind,
    obj: ObjectView,
    name: Seq<char>,
    sig: Seq<char>,
    args: Seq<Arg>,
    t: Seq<Exchange>,
    i: int,
)
    requires
        obj.ptr != 0,
        fallback_run(access, kind, obj, name, sig, args, t, i) is Some,
        lookup_run(access.spec_member(), Scope::Instance, obj.class, name, sig, t, i) is Some,
        lookup_run(access.spec_member(), Scope::Instance, obj.class, name, sig, t, i)->0.value
            is Err,
    ensures
        ({
            let member = access.spec_member();
            let first = lookup_run(member, Scope::Instance, obj.class, name, sig, t, i)->0;
            let second = lookup_run(member, Scope::Static, obj.class, name, sig, t, first.end);
            let whole = fallback_run(access, kind, obj, name, sig, args, t, i);
            &&& whole == collapsed(static_run(access, kind, obj.class, name, sig, args, t, first.end))
            &&& second is Some
            &&& second->0.value is Err ==> whole == refused::<u64>(
                JniError::MemberNotFound,
                second->0.end,
            )
            &&& second->0.value is Ok && whole->0.value is Ok ==> {
                &&& touch(t, whole->0.end).call == CallView::typed(
                    access,
                    Scope::Static,
                    kind,
                    obj.class,
                    second->0.value->Ok_0,
                    args,
                )
                &&& whole->0.value == Ok::<u64, JniError>(touch(t, whole->0.end).reply)
            }
        }),
{
}

/// The null check goes by the runtime's answer: the reference is handed to
/// the runtime's own check as the one argument, and where the runtime answers
/// truly, the result says whether the reference is null.
pub proof fn lemma_is_null(ptr: u64, t: Seq<Exchange>, i: int)
    requires
        0 <= i,
        is_null_run(ptr, t, i) is Some,
        is_null_run(ptr, t, i)->0.value is Ok,
    ensures
        ({
            let run = is_null_run(ptr, t, i)->0;
            &&& touch(t, run.end).call.args == seq![Arg { kind: Kind::Object, bits: ptr }]
            &&& touch(t, run.end).call.op == Operation::Typed(
                Access::MethodCall,
                Scope::Static,
                Kind::Boolean,
            )
            &&& run.value->Ok_0 == slot_boolean(touch(t, run.end).reply)
            &&& slot_boolean(touch(t, run.end).reply) == (ptr == 0) ==> run.value->Ok_0 == (ptr
                == 0)
        }),
{
}

/// A class has no superclass exactly where the runtime hands back the null
/// reference for it, or the handle is on no class. For any other the result
/// is the reference that the runtime handed back, and so differs from the
/// class itself wherever the runtime's answer does.
pub proof fn lemma_super(class: u64, t: Seq<Exchange>, i: int)
    requires
        0 <= i,
        super_run(class, t, i) is Some,
    ensures
        ({
            let run = super_run(class, t, i)->0;
            &&& run.value is Err <==> class == 0 || t[i].reply == 0
            &&& run.value is Err ==> run.value == Err::<u64, JniError>(JniError::NoSuperclass)
            &&& run.value is Ok ==> run.value->Ok_0 == t[i].reply && run.value->Ok_0 != 0
            &&& run.value is Ok && t[i].reply != class ==> run.value->Ok_0 != class
        }),
{
}

/// Two handles that are made for the same object hold the same class,
/// provided the runtime names the same class both times.
pub proof fn lemma_same_object_same_class(ptr: u64, t: Seq<Exchange>, i: int, j: int)
    requires
        handle_run(ptr, t, i) is Some,
        handle_run(ptr, t, j) is Some,
        t[i].reply == t[j].reply,
    ensures
        handle_run(ptr, t, i)->0.value == handle_run(ptr, t, j)->0.value,
        handle_run(ptr, t, i)->0.value is Ok,
        handle_run(ptr, t, i)->0.value->Ok_0.class == t[i].reply,
{
}

/// A checked call fails exactly where the check that follows it finds the
/// flag set, and then the last exchange of the run is the clearing of the
/// flag: no failure that was detected is left pending in the runtime.
pub proof fn lemma_pending_is_cleared(call: CallView, t: Seq<Exchange>, i: int)
    requires
        checked_run(call, t, i) is Some,
    ensures
        ({
            let run = checked_run(call, t, i)->0;
            &&& t[i].call == call
            &&& t[i + 1].call == check_call()
            &&& run.value is Err <==> slot_boolean(t[i + 1].reply)
            &&& run.value is Err ==> {
                &&& run.value == Err::<u64, JniError>(JniError::PendingRuntimeFailure)
                &&& run.end == i + 3
                &&& t[run.end - 1].call == clear_call()
            }
            &&& run.value is Ok ==> run.end == i + 2 && run.value == Ok::<u64, JniError>(t[i].reply)
        }),
{
}

/// Every operation on a member fails on the handle on no object and on the
/// handle on no class, and makes no call: the run ends where it starts.
pub proof fn lemma_null_handles_make_no_call(
    access: Access,
    kind: Kind,
    obj: ObjectView,
    name: Seq<char>,
    sig: Seq<char>,
    args: Seq<Arg>,
    t: Seq<Exchange>,
    i: int,
)
    requires
        obj.ptr == 0,
    ensures
        fallback_run(access, kind, obj, name, sig, args, t, i) == refused::<u64>(
            JniError::MemberNotFound,
            i,
        ),
        fallback_object_run(access, obj, name, sig, args, t, i) == refused::<ObjectView>(
            JniError::MemberNotFound,
            i,
        ),
        static_run(access, kind, 0, name, sig, args, t, i) == refused::<u64>(
            JniError::MemberNotFound,
            i,
        ),
        lookup_run(access.spec_member(), Scope::Static, 0, name, sig, t, i) == refused::<u64>(
            JniError::MemberNotFound,
            i,
        ),
        super_run(0, t, i) == refused::<u64>(JniError::NoSuperclass, i),
{
}

} // verus!
