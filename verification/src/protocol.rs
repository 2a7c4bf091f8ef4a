use vstd::prelude::*;
use crate::call::{CallView, Exchange};
use crate::error::JniError;
use crate::kind::{Access, Kind, Member, Operation, Scope};
use crate::slot::{Arg, slot_boolean};

verus! {

// What an operation of the library does is stated over the trace of an
// environment: the exchanges with the call table, in the order in which they
// were made. A run of an operation from position `i` of a trace `t` is the
// stretch of exchanges that the operation makes when the table answers as
// `t` records; it gives the operation's result and the position after its
// last exchange. Where `t` does not hold such a stretch at `i` there is no run.

/// The result of a run and the position in the trace at which it ends.
pub struct Run<V> {
    pub value: Result<V, JniError>,
    pub end: int,
}

/// A run that makes no call and fails.
pub open spec fn refused<V>(error: JniError, i: int) -> Option<Run<V>> {
    Some(Run { value: Err(error), end: i })
}

/// The check of the pending-failure flag, which follows every checked call.
pub open spec fn check_call() -> CallView {
    CallView::plain(Operation::ExceptionCheck, 0)
}

/// The clearing of the pending-failure flag, which follows every check that found it set.
pub open spec fn clear_call() -> CallView {
    CallView::plain(Operation::ExceptionClear, 0)
}

/// The unchecked convention: the call alone, and its reply is the result.
pub open spec fn unchecked_run(call: CallView, t: Seq<Exchange>, i: int) -> Option<Run<u64>> {
    if 0 <= i < t.len() && t[i].call == call {
        Some(Run { value: Ok(t[i].reply), end: i + 1 })
    } else {
        None
    }
}

/// The checked convention: the call, then the check of the flag. A flag that
/// is not set leaves the call's reply as the result. A flag that is set is
/// cleared at once, and the result is `PendingRuntimeFailure`.
pub open spec fn checked_run(call: CallView, t: Seq<Exchange>, i: int) -> Option<Run<u64>> {
    if 0 <= i && i + 2 <= t.len() && t[i].call == call && t[i + 1].call == check_call() {
        if !slot_boolean(t[i + 1].reply) {
            Some(Run { value: Ok(t[i].reply), end: i + 2 })
        } else if i + 3 <= t.len() && t[i + 2].call == clear_call() {
            Some(Run { value: Err(JniError::PendingRuntimeFailure), end: i + 3 })
        } else {
            None
        }
    } else {
        None
    }
}

/// A run with its result seen through `f`.
pub open spec fn decoded<V>(run: Option<Run<u64>>, f: spec_fn(u64) -> V) -> Option<Run<V>> {
    match run {
        Some(run) => Some(
            Run {
                value: match run.value {
                    Ok(slot) => Ok(f(slot)),
                    Err(e) => Err(e),
                },
                end: run.end,
            },
        ),
        None => None,
    }
}

/// A run whose result is a reference: the null reference fails with `error`,
/// and so does every failure of the run itself.
pub open spec fn non_null(run: Option<Run<u64>>, error: JniError) -> Option<Run<u64>> {
    match run {
        Some(run) => Some(
            Run {
                value: match run.value {
                    Ok(slot) if slot != 0 => Ok(slot),
                    _ => Err(error),
                },
                end: run.end,
            },
        ),
        None => None,
    }
}

/// The lookup of a class by name: a checked call of `FindClass`.
pub open spec fn find_class_run(name: Seq<char>, t: Seq<Exchange>, i: int) -> Option<Run<u64>> {
    non_null(checked_run(CallView::find_class(name), t, i), JniError::ClassNotFound)
}

/// The lookup of a member: a checked call of the lookup operation on the
/// class. The null class has no members, and none is looked up on it.
pub open spec fn lookup_run(
    member: Member,
    scope: Scope,
    class: u64,
    name: Seq<char>,
    sig: Seq<char>,
    t: Seq<Exchange>,
    i: int,
) -> Option<Run<u64>> {
    if class == 0 {
        refused(JniError::MemberNotFound, i)
    } else {
        non_null(
            checked_run(CallView::lookup(member, scope, class, name, sig), t, i),
            JniError::MemberNotFound,
        )
    }
}

/// A run followed by another, which starts where the first ended and is
/// given what the first resulted in. A failure of the first ends the whole.
pub open spec fn and_then<A, B>(first: Option<Run<A>>, next: spec_fn(A, int) -> Option<Run<B>>)
    -> Option<Run<B>> {
    match first {
        Some(run) => match run.value {
            Ok(a) => next(a, run.end),
            Err(e) => refused(e, run.end),
        },
        None => None,
    }
}

/// One access to a member, in one scope: the member is looked up on `class`,
/// and where that gives a token, the typed operation is called on `target`,
/// checked. Nothing is attempted on the null target.
pub open spec fn access_run(
    access: Access,
    scope: Scope,
    kind: Kind,
    class: u64,
    target: u64,
    name: Seq<char>,
    sig: Seq<char>,
    args: Seq<Arg>,
    t: Seq<Exchange>,
    i: int,
) -> Option<Run<u64>> {
    if target == 0 {
        refused(JniError::MemberNotFound, i)
    } else {
        and_then(
            lookup_run(access.spec_member(), scope, class, name, sig, t, i),
            |token: u64, j: int|
                checked_run(CallView::typed(access, scope, kind, target, token, args), t, j),
        )
    }
}

/// One access to a static member of `class`.
pub open spec fn static_run(
    access: Access,
    kind: Kind,
    class: u64,
    name: Seq<char>,
    sig: Seq<char>,
    args: Seq<Arg>,
    t: Seq<Exchange>,
    i: int,
) -> Option<Run<u64>> {
    access_run(access, Scope::Static, kind, class, class, name, sig, args, t, i)
}

/// An object handle as a plain value: the reference to the object and the
/// reference to its class, as the handle caches it.
pub struct ObjectView {
    pub ptr: u64,
    pub class: u64,
}

/// One access to a member of the object itself, looked up on its class.
pub open spec fn instance_run(
    access: Access,
    kind: Kind,
    obj: ObjectView,
    name: Seq<char>,
    sig: Seq<char>,
    args: Seq<Arg>,
    t: Seq<Exchange>,
    i: int,
) -> Option<Run<u64>> {
    access_run(access, Scope::Instance, kind, obj.class, obj.ptr, name, sig, args, t, i)
}

/// The making of a handle for the object behind `ptr`: its class is asked
/// for, unchecked, and the handle holds the reference and the class that came back.
pub open spec fn handle_run(ptr: u64, t: Seq<Exchange>, i: int) -> Option<Run<ObjectView>> {
    decoded(
        unchecked_run(CallView::plain(Operation::GetObjectClass, ptr), t, i),
        |class: u64| ObjectView { ptr, class },
    )
}

/// A run whose result is wrapped as an object handle. The null reference
/// fails with `NullResult`; for any other a handle is made.
pub open spec fn wrapped(run: Option<Run<u64>>, t: Seq<Exchange>) -> Option<Run<ObjectView>> {
    and_then(
        run,
        |slot: u64, j: int|
            if slot == 0 {
                refused(JniError::NullResult, j)
            } else {
                handle_run(slot, t, j)
            },
    )
}

/// A run of which a caller learns only that it failed: whatever the failure
/// was, it is reported as `MemberNotFound`.
pub open spec fn collapsed<V>(run: Option<Run<V>>) -> Option<Run<V>> {
    match run {
        Some(run) if run.value is Err => refused(JniError::MemberNotFound, run.end),
        _ => run,
    }
}

/// A first attempt and, if and only if it fails, a second one, which starts
/// where the first ended. Where both fail, the two failures collapse into one.
pub open spec fn or_else<V>(first: Option<Run<V>>, second: spec_fn(int) -> Option<Run<V>>)
    -> Option<Run<V>> {
    match first {
        Some(run) if run.value is Err => collapsed(second(run.end)),
        _ => first,
    }
}

/// An access through an object handle: first to a member of the object
/// itself, then, if that fails, to the static member of its class. The
/// handle on no object fails at once.
pub open spec fn fallback_run(
    access: Access,
    kind: Kind,
    obj: ObjectView,
    name: Seq<char>,
    sig: Seq<char>,
    args: Seq<Arg>,
    t: Seq<Exchange>,
    i: int,
) -> Option<Run<u64>> {
    if obj.ptr == 0 {
        refused(JniError::MemberNotFound, i)
    } else {
        or_else(
            instance_run(access, kind, obj, name, sig, args, t, i),
            |j: int| static_run(access, kind, obj.class, name, sig, args, t, j),
        )
    }
}

/// The same for a member that gives an object: each attempt ends with the
/// wrapping of what it gave, and a null reference fails the attempt.
pub open spec fn fallback_object_run(
    access: Access,
    obj: ObjectView,
    name: Seq<char>,
    sig: Seq<char>,
    args: Seq<Arg>,
    t: Seq<Exchange>,
    i: int,
) -> Option<Run<ObjectView>> {
    if obj.ptr == 0 {
        refused(JniError::MemberNotFound, i)
    } else {
        or_else(
            wrapped(instance_run(access, Kind::Object, obj, name, sig, args, t, i), t),
            |j: int| wrapped(static_run(access, Kind::Object, obj.class, name, sig, args, t, j), t),
        )
    }
}

/// A run of which only the success matters.
pub open spec fn done(run: Option<Run<u64>>) -> Option<Run<()>> {
    decoded(run, |slot: u64| ())
}

/// The reading of a static field of `class`.
pub open spec fn static_get_run(
    kind: Kind,
    class: u64,
    name: Seq<char>,
    sig: Seq<char>,
    t: Seq<Exchange>,
    i: int,
) -> Option<Run<u64>> {
    static_run(Access::FieldGet, kind, class, name, sig, Seq::empty(), t, i)
}

/// The writing of a static field of `class`: the new value is the one argument.
pub open spec fn static_set_run(
    kind: Kind,
    class: u64,
    name: Seq<char>,
    sig: Seq<char>,
    value: u64,
    t: Seq<Exchange>,
    i: int,
) -> Option<Run<()>> {
    done(static_run(Access::FieldSet, kind, class, name, sig, seq![Arg { kind, bits: value }], t, i))
}

/// The call of a static method of `class`.
pub open spec fn static_call_run(
    kind: Kind,
    class: u64,
    name: Seq<char>,
    sig: Seq<char>,
    args: Seq<Arg>,
    t: Seq<Exchange>,
    i: int,
) -> Option<Run<u64>> {
    static_run(Access::MethodCall, kind, class, name, sig, args, t, i)
}

/// The reading of a field through an object handle.
pub open spec fn get_run(
    kind: Kind,
    obj: ObjectView,
    name: Seq<char>,
    sig: Seq<char>,
    t: Seq<Exchange>,
    i: int,
) -> Option<Run<u64>> {
    fallback_run(Access::FieldGet, kind, obj, name, sig, Seq::empty(), t, i)
}

/// The writing of a field through an object handle.
pub open spec fn set_run(
    kind: Kind,
    obj: ObjectView,
    name: Seq<char>,
    sig: Seq<char>,
    value: u64,
    t: Seq<Exchange>,
    i: int,
) -> Option<Run<()>> {
    done(fallback_run(Access::FieldSet, kind, obj, name, sig, seq![Arg { kind, bits: value }], t, i))
}

/// The call of a method through an object handle.
pub open spec fn call_run(
    kind: Kind,
    obj: ObjectView,
    name: Seq<char>,
    sig: Seq<char>,
    args: Seq<Arg>,
    t: Seq<Exchange>,
    i: int,
) -> Option<Run<u64>> {
    fallback_run(Access::MethodCall, kind, obj, name, sig, args, t, i)
}

/// The reading of a field that holds an object, through an object handle.
pub open spec fn get_object_run(
    obj: ObjectView,
    name: Seq<char>,
    sig: Seq<char>,
    t: Seq<Exchange>,
    i: int,
) -> Option<Run<ObjectView>> {
    fallback_object_run(Access::FieldGet, obj, name, sig, Seq::empty(), t, i)
}

/// The call of a method that returns an object, through an object handle.
pub open spec fn call_object_run(
    obj: ObjectView,
    name: Seq<char>,
    sig: Seq<char>,
    args: Seq<Arg>,
    t: Seq<Exchange>,
    i: int,
) -> Option<Run<ObjectView>> {
    fallback_object_run(Access::MethodCall, obj, name, sig, args, t, i)
}

/// The superclass of `class`: asked for unchecked. The null class has none,
/// and a class for which the runtime hands back the null reference has none.
pub open spec fn super_run(class: u64, t: Seq<Exchange>, i: int) -> Option<Run<u64>> {
    if class == 0 {
        refused(JniError::NoSuperclass, i)
    } else {
        non_null(
            unchecked_run(CallView::plain(Operation::GetSuperclass, class), t, i),
            JniError::NoSuperclass,
        )
    }
}

/// The superclass of an object's class, wrapped as an object handle.
pub open spec fn super_object_run(obj: ObjectView, t: Seq<Exchange>, i: int) -> Option<
    Run<ObjectView>,
> {
    and_then(super_run(obj.class, t, i), |ptr: u64, j: int| handle_run(ptr, t, j))
}

/// The duplication of an object: its method `clone` is called through the
/// handle, and a handle of its own is made for the copy.
pub open spec fn clone_run(obj: ObjectView, t: Seq<Exchange>, i: int) -> Option<Run<ObjectView>> {
    and_then(
        call_object_run(obj, "clone"@, "()Ljava/lang/Object;"@, Seq::empty(), t, i),
        |copy: ObjectView, j: int| handle_run(copy.ptr, t, j),
    )
}

/// The runtime's own null check on a reference: the class `java/util/Objects`
/// is looked up, and its static method `isNull` is called on the reference.
pub open spec fn is_null_run(ptr: u64, t: Seq<Exchange>, i: int) -> Option<Run<bool>> {
    and_then(
        find_class_run("java/util/Objects"@, t, i),
        |class: u64, j: int|
            decoded(
                static_call_run(
                    Kind::Boolean,
                    class,
                    "isNull"@,
                    "(Ljava/lang/Object;)Z"@,
                    seq![Arg { kind: Kind::Object, bits: ptr }],
                    t,
                    j,
                ),
                |slot: u64| slot_boolean(slot),
            ),
    )
}

/// The construction of an instance of `class`: the constructor is looked up
/// as a method of instances, the construction is called unchecked, and what
/// it gives is wrapped.
pub open spec fn construct_run(
    class: u64,
    name: Seq<char>,
    sig: Seq<char>,
    args: Seq<Arg>,
    t: Seq<Exchange>,
    i: int,
) -> Option<Run<ObjectView>> {
    and_then(
        lookup_run(Member::Method, Scope::Instance, class, name, sig, t, i),
        |token: u64, j: int| wrapped(unchecked_run(CallView::construct(class, token, args), t, j), t),
    )
}

// When an operation makes several runs one after another, the trace has grown
// by the time the later ones are made. The lemmas below say that this leaves
// the earlier ones as they were.

/// A run that `t` holds at `i` is settled: it ends inside `t`, at or after
/// `i`, and the longer trace `u` holds the same run.
pub open spec fn settled<V>(
    at_t: Option<Run<V>>,
    at_u: Option<Run<V>>,
    t: Seq<Exchange>,
    i: int,
) -> bool {
    &&& at_t is Some
    &&& i <= at_t->0.end <= t.len()
    &&& at_u == at_t
}

pub proof fn lemma_checked_run(call: CallView, t: Seq<Exchange>, u: Seq<Exchange>, i: int)
    requires
        checked_run(call, t, i) is Some,
        t.is_prefix_of(u),
    ensures
        settled(checked_run(call, t, i), checked_run(call, u, i), t, i),
{
}

pub proof fn lemma_find_class_run(name: Seq<char>, t: Seq<Exchange>, u: Seq<Exchange>, i: int)
    requires
        find_class_run(name, t, i) is Some,
        t.is_prefix_of(u),
    ensures
        settled(find_class_run(name, t, i), find_class_run(name, u, i), t, i),
{
    lemma_checked_run(CallView::find_class(name), t, u, i);
}

pub proof fn lemma_lookup_run(
    member: Member,
    scope: Scope,
    class: u64,
    name: Seq<char>,
    sig: Seq<char>,
    t: Seq<Exchange>,
    u: Seq<Exchange>,
    i: int,
)
    requires
        0 <= i <= t.len(),
        lookup_run(member, scope, class, name, sig, t, i) is Some,
        t.is_prefix_of(u),
    ensures
        settled(
            lookup_run(member, scope, class, name, sig, t, i),
            lookup_run(member, scope, class, name, sig, u, i),
            t,
            i,
        ),
{
    if class != 0 {
        lemma_checked_run(CallView::lookup(member, scope, class, name, sig), t, u, i);
    }
}

pub proof fn lemma_access_run(
    access: Access,
    scope: Scope,
    kind: Kind,
    class: u64,
    target: u64,
    name: Seq<char>,
    sig: Seq<char>,
    args: Seq<Arg>,
    t: Seq<Exchange>,
    u: Seq<Exchange>,
    i: int,
)
    requires
        0 <= i <= t.len(),
        access_run(access, scope, kind, class, target, name, sig, args, t, i) is Some,
        t.is_prefix_of(u),
    ensures
        settled(
            access_run(access, scope, kind, class, target, name, sig, args, t, i),
            access_run(access, scope, kind, class, target, name, sig, args, u, i),
            t,
            i,
        ),
{
    if target != 0 {
        let member = access.spec_member();
        lemma_lookup_run(member, scope, class, name, sig, t, u, i);
        let found = lookup_run(member, scope, class, name, sig, t, i)->0;
        if found.value is Ok {
            let call = CallView::typed(access, scope, kind, target, found.value->Ok_0, args);
            lemma_checked_run(call, t, u, found.end);
        }
    }
}

/// Wrapping what a settled run gave is settled too.
pub proof fn lemma_wrapped(
    at_t: Option<Run<u64>>,
    at_u: Option<Run<u64>>,
    t: Seq<Exchange>,
    u: Seq<Exchange>,
    i: int,
)
    requires
        0 <= i,
        settled(at_t, at_u, t, i),
        wrapped(at_t, t) is Some,
        t.is_prefix_of(u),
    ensures
        settled(wrapped(at_t, t), wrapped(at_u, u), t, i),
{
}

pub proof fn lemma_super_run(class: u64, t: Seq<Exchange>, u: Seq<Exchange>, i: int)
    requires
        0 <= i <= t.len(),
        super_run(class, t, i) is Some,
        t.is_prefix_of(u),
    ensures
        settled(super_run(class, t, i), super_run(class, u, i), t, i),
{
}

pub proof fn lemma_fallback_object_run(
    access: Access,
    obj: ObjectView,
    name: Seq<char>,
    sig: Seq<char>,
    args: Seq<Arg>,
    t: Seq<Exchange>,
    u: Seq<Exchange>,
    i: int,
)
    requires
        0 <= i <= t.len(),
        fallback_object_run(access, obj, name, sig, args, t, i) is Some,
        t.is_prefix_of(u),
    ensures
        settled(
            fallback_object_run(access, obj, name, sig, args, t, i),
            fallback_object_run(access, obj, name, sig, args, u, i),
            t,
            i,
        ),
{
    if obj.ptr != 0 {
        let kind = Kind::Object;
        lemma_access_run(access, Scope::Instance, kind, obj.class, obj.ptr, name, sig, args, t, u, i);
        let first_t = instance_run(access, kind, obj, name, sig, args, t, i);
        let first_u = instance_run(access, kind, obj, name, sig, args, u, i);
        lemma_wrapped(first_t, first_u, t, u, i);
        let first = wrapped(first_t, t)->0;
        if first.value is Err {
            let j = first.end;
            lemma_access_run(access, Scope::Static, kind, obj.class, obj.class, name, sig, args, t, u, j);
            let second_t = static_run(access, kind, obj.class, name, sig, args, t, j);
            let second_u = static_run(access, kind, obj.class, name, sig, args, u, j);
            lemma_wrapped(second_t, second_u, t, u, j);
        }
    }
}

} // verus!
