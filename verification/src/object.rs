use std::sync::Arc;
use vstd::prelude::*;
use crate::call::{Call, CallTable, fits, no_args};
use crate::class::JClass;
use crate::env::Jenv;
use crate::error::JniError;
use crate::kind::{Access, Kind, Member, Operation, Scope};
use crate::protocol::{
    ObjectView, Run, call_object_run, call_run, clone_run, decoded, done, fallback_object_run,
    fallback_run, get_object_run, get_run, handle_run, instance_run, is_null_run,
    lemma_access_run, lemma_fallback_object_run, lemma_find_class_run, lemma_lookup_run,
    lemma_super_run, lemma_wrapped, lookup_run, set_run, super_object_run, wrapped,
};
use crate::slot::{
    Arg, boolean_slot, byte_slot, char_slot, decode_boolean, decode_byte, decode_char, decode_float,
    decode_int, decode_long, decode_short, encode_boolean, encode_byte, encode_char,
    encode_float, encode_int, encode_long, encode_short, float_slot, int_slot, long_slot,
    short_slot, slot_boolean, slot_byte, slot_char, slot_float, slot_int, slot_long, slot_short,
};
use crate::jvalue::{JValue, marshal, marshalled};

verus! {

/// A handle on an object of the runtime, or on no object where the reference
/// is null. It holds the handle of the object's class, which is asked for
/// once, when the handle is made, and shared from then on.
pub struct JObject {
    pub ptr: u64,
    pub class: Arc<JClass>,
}

impl View for JObject {
    type V = ObjectView;

    open spec fn view(&self) -> ObjectView {
        ObjectView { ptr: self.ptr, class: self.class.ptr }
    }
}

/// `Arc::clone`: the new pointer shares the value of the one it was made from.
#[verifier::external_body]
fn share(class: &Arc<JClass>) -> (shared: Arc<JClass>)
    ensures
        shared == class,
{
    Arc::clone(class)
}

impl Clone for JObject {
    /// A second handle on the same object, which shares the cached class.
    fn clone(&self) -> (obj: JObject)
        ensures
            obj@ == self@,
    {
        JObject { ptr: self.ptr, class: share(&self.class) }
    }
}

impl<'a> From<&'a JObject> for JObject {
    /// A second handle on the same object, as `clone` gives it.
    fn from(x: &'a JObject) -> (obj: JObject) {
        x.clone()
    }
}

impl<'a> vstd::std_specs::convert::FromSpecImpl<&'a JObject> for JObject {
    open spec fn obeys_from_spec() -> bool {
        true
    }

    open spec fn from_spec(x: &'a JObject) -> JObject {
        *x
    }
}

/// A result that holds a handle, with the handle as a plain value.
pub open spec fn viewed(r: Result<JObject, JniError>) -> Result<ObjectView, JniError> {
    match r {
        Ok(obj) => Ok(obj@),
        Err(e) => Err(e),
    }
}

impl JObject {
    /// The handle for the object behind `ptr`. Its class is asked for at
    /// once, with an unchecked call, and kept.
    pub fn new<T: CallTable>(ptr: u64, env: &mut Jenv<T>) -> (obj: JObject)
        requires
            ptr != 0,
        ensures
            old(env).trace().is_prefix_of(final(env).trace()),
            handle_run(ptr, final(env).trace(), old(env).mark()) == Some(
                Run { value: Ok(obj@), end: final(env).mark() },
            ),
    {
        let class = env.call_unchecked(&Call::plain(Operation::GetObjectClass, ptr));
        JObject { ptr, class: Arc::new(JClass::new(class)) }
    }

    /// The handle on no object. Its class is the null class, and no call is made.
    pub fn null() -> (obj: JObject)
        ensures
            obj@ == (ObjectView { ptr: 0, class: 0 }),
    {
        JObject { ptr: 0, class: Arc::new(JClass::null()) }
    }

    /// Wraps a reference that the runtime handed back: `NullResult` for the
    /// null reference, a new handle for any other.
    pub fn wrap<T: CallTable>(env: &mut Jenv<T>, ptr: u64) -> (r: Result<JObject, JniError>)
        ensures
            old(env).trace().is_prefix_of(final(env).trace()),
            wrapped(Some(Run { value: Ok(ptr), end: old(env).mark() }), final(env).trace()) == Some(
                Run { value: viewed(r), end: final(env).mark() },
            ),
    {
        if ptr == 0 {
            Err(JniError::NullResult)
        } else {
            Ok(JObject::new(ptr, env))
        }
    }

    /// One access to a member of the object itself: the member is looked up
    /// on the cached class, and the typed operation is called on the object.
    pub fn instance_access<T: CallTable>(
        &self,
        env: &mut Jenv<T>,
        access: Access,
        kind: Kind,
        name: &str,
        sig: &str,
        args: &[Arg],
    ) -> (r: Result<u64, JniError>)
        requires
            fits(access, kind, args@),
        ensures
            old(env).trace().is_prefix_of(final(env).trace()),
            instance_run(access, kind, self@, name@, sig@, args@, final(env).trace(), old(env).mark())
                == Some(Run { value: r, end: final(env).mark() }),
    {
        if self.ptr == 0 {
            return Err(JniError::MemberNotFound);
        }
        let ghost start = env.mark();
        let token = match self.class.lookup(env, access.member(), Scope::Instance, name, sig) {
            Ok(token) => token,
            Err(e) => {
                return Err(e);
            },
        };
        let ghost found = env.trace();
        let r = env.call_checked(&Call::typed(access, Scope::Instance, kind, self.ptr, token, args));
        proof {
            lemma_lookup_run(
                access.spec_member(),
                Scope::Instance,
                self.class.ptr,
                name@,
                sig@,
                found,
                env.trace(),
                start,
            );
        }
        r
    }

    /// The same for a member that gives an object, which is wrapped.
    pub fn instance_object<T: CallTable>(
        &self,
        env: &mut Jenv<T>,
        access: Access,
        name: &str,
        sig: &str,
        args: &[Arg],
    ) -> (r: Result<JObject, JniError>)
        requires
            fits(access, Kind::Object, args@),
        ensures
            old(env).trace().is_prefix_of(final(env).trace()),
            wrapped(
                instance_run(
                    access,
                    Kind::Object,
                    self@,
                    name@,
                    sig@,
                    args@,
                    final(env).trace(),
                    old(env).mark(),
                ),
                final(env).trace(),
            ) == Some(Run { value: viewed(r), end: final(env).mark() }),
    {
        let ghost start = env.mark();
        let slot = match self.instance_access(env, access, Kind::Object, name, sig, args) {
            Ok(slot) => slot,
            Err(e) => {
                return Err(e);
            },
        };
        let ghost called = env.trace();
        let r = JObject::wrap(env, slot);
        proof {
            lemma_access_run(
                access,
                Scope::Instance,
                Kind::Object,
                self.class.ptr,
                self.ptr,
                name@,
                sig@,
                args@,
                called,
                env.trace(),
                start,
            );
        }
        r
    }

    /// An access to a member by name and signature alone: first to the
    /// member of the object itself, and if and only if that fails, to the
    /// static member of its class. Where both fail, the one failure that is
    /// reported is `MemberNotFound`.
    pub fn access<T: CallTable>(
        &self,
        env: &mut Jenv<T>,
        access: Access,
        kind: Kind,
        name: &str,
        sig: &str,
        args: &[Arg],
    ) -> (r: Result<u64, JniError>)
        requires
            fits(access, kind, args@),
        ensures
            old(env).trace().is_prefix_of(final(env).trace()),
            fallback_run(access, kind, self@, name@, sig@, args@, final(env).trace(), old(env).mark())
                == Some(Run { value: r, end: final(env).mark() }),
    {
        if self.ptr == 0 {
            return Err(JniError::MemberNotFound);
        }
        let ghost start = env.mark();
        if let Ok(slot) = self.instance_access(env, access, kind, name, sig, args) {
            return Ok(slot);
        }
        let ghost first = env.trace();
        let second = self.class.static_access(env, access, kind, name, sig, args);
        proof {
            lemma_access_run(
                access,
                Scope::Instance,
                kind,
                self.class.ptr,
                self.ptr,
                name@,
                sig@,
                args@,
                first,
                env.trace(),
                start,
            );
        }
        match second {
            Ok(slot) => Ok(slot),
            Err(_) => Err(JniError::MemberNotFound),
        }
    }

    /// The same for a member that gives an object.
    pub fn object_access<T: CallTable>(
        &self,
        env: &mut Jenv<T>,
        access: Access,
        name: &str,
        sig: &str,
        args: &[Arg],
    ) -> (r: Result<JObject, JniError>)
        requires
            fits(access, Kind::Object, args@),
        ensures
            old(env).trace().is_prefix_of(final(env).trace()),
            fallback_object_run(
                access,
                self@,
                name@,
                sig@,
                args@,
                final(env).trace(),
                old(env).mark(),
            ) == Some(Run { value: viewed(r), end: final(env).mark() }),
    {
        if self.ptr == 0 {
            return Err(JniError::MemberNotFound);
        }
        let ghost start = env.mark();
        if let Ok(obj) = self.instance_object(env, access, name, sig, args) {
            return Ok(obj);
        }
        let ghost first = env.trace();
        let second = self.class.static_object(env, access, name, sig, args);
        proof {
            let kind = Kind::Object;
            lemma_access_run(
                access,
                Scope::Instance,
                kind,
                self.class.ptr,
                self.ptr,
                name@,
                sig@,
                args@,
                first,
                env.trace(),
                start,
            );
            lemma_wrapped(
                instance_run(access, kind, self@, name@, sig@, args@, first, start),
                instance_run(access, kind, self@, name@, sig@, args@, env.trace(), start),
                first,
                env.trace(),
                start,
            );
        }
        match second {
            Ok(obj) => Ok(obj),
            Err(_) => Err(JniError::MemberNotFound),
        }
    }

    /// Writes the slot `value` to a field, through this handle.
    pub fn set<T: CallTable>(
        &self,
        env: &mut Jenv<T>,
        kind: Kind,
        name: &str,
        sig: &str,
        value: u64,
    ) -> (r: Result<(), JniError>)
        requires
            kind != Kind::Void,
        ensures
            old(env).trace().is_prefix_of(final(env).trace()),
            set_run(kind, self@, name@, sig@, value, final(env).trace(), old(env).mark()) == Some(
                Run { value: r, end: final(env).mark() },
            ),
    {
        let args = [Arg { kind, bits: value }];
        assert(args@ =~= seq![Arg { kind, bits: value }]);
        match self.access(env, Access::FieldSet, kind, name, sig, &args) {
            Ok(_) => Ok(()),
            Err(e) => Err(e),
        }
    }

    /// The class of the object, as it was asked for when the handle was
    /// made. The pointer that comes back shares the cached handle.
    pub fn get_class(&self) -> (class: Arc<JClass>)
        ensures
            class.ptr == self@.class,
    {
        share(&self.class)
    }

    /// The superclass of the object's class, in a handle of its own.
    pub fn get_super<T: CallTable>(&self, env: &mut Jenv<T>) -> (r: Result<JObject, JniError>)
        ensures
            old(env).trace().is_prefix_of(final(env).trace()),
            super_object_run(self@, final(env).trace(), old(env).mark()) == Some(
                Run { value: viewed(r), end: final(env).mark() },
            ),
    {
        let ghost start = env.mark();
        let ptr = match self.class.get_super(env) {
            Ok(class) => class.ptr,
            Err(e) => {
                return Err(e);
            },
        };
        let ghost asked = env.trace();
        let obj = JObject::new(ptr, env);
        proof {
            lemma_super_run(self.class.ptr, asked, env.trace(), start);
        }
        Ok(obj)
    }

    /// Duplicates the object by its method `clone`, and makes a new handle
    /// for the copy. An object that cannot be cloned fails the call.
    pub fn hard_clone<T: CallTable>(&self, env: &mut Jenv<T>) -> (r: Result<JObject, JniError>)
        ensures
            old(env).trace().is_prefix_of(final(env).trace()),
            clone_run(self@, final(env).trace(), old(env).mark()) == Some(
                Run { value: viewed(r), end: final(env).mark() },
            ),
    {
        let ghost start = env.mark();
        let args: Vec<JValue> = Vec::new();
        assert(marshalled(args@) =~= Seq::empty());
        let copy = match self.call_object_method(env, "clone", "()Ljava/lang/Object;", &args) {
            Ok(copy) => copy,
            Err(e) => {
                return Err(e);
            },
        };
        let ghost called = env.trace();
        let obj = JObject::new(copy.ptr, env);
        proof {
            lemma_fallback_object_run(
                Access::MethodCall,
                self@,
                "clone"@,
                "()Ljava/lang/Object;"@,
                Seq::empty(),
                called,
                env.trace(),
                start,
            );
        }
        Ok(obj)
    }

    /// Asks the runtime whether the reference is null, by the static method
    /// `isNull` of its class `java/util/Objects`.
    pub fn is_null<T: CallTable>(&self, env: &mut Jenv<T>) -> (r: Result<bool, JniError>)
        ensures
            old(env).trace().is_prefix_of(final(env).trace()),
            is_null_run(self.ptr, final(env).trace(), old(env).mark()) == Some(
                Run { value: r, end: final(env).mark() },
            ),
    {
        let ghost start = env.mark();
        let class = match env.find_class("java/util/Objects") {
            Ok(class) => class,
            Err(e) => {
                return Err(e);
            },
        };
        let ghost found = env.trace();
        let args = vec![JValue::JObject(self)];
        assert(marshalled(args@) =~= seq![Arg { kind: Kind::Object, bits: self.ptr }]);
        let r = class.call_static_boolean_method(env, "isNull", "(Ljava/lang/Object;)Z", &args);
        proof {
            lemma_find_class_run("java/util/Objects"@, found, env.trace(), start);
        }
        r
    }

    /// The token of the field of this object with this name and signature.
    pub fn get_field_id<T: CallTable>(&self, env: &mut Jenv<T>, name: &str, sig: &str) -> (r:
        Result<u64, JniError>)
        ensures
            old(env).trace().is_prefix_of(final(env).trace()),
            lookup_run(
                Member::Field,
                Scope::Instance,
                self@.class,
                name@,
                sig@,
                final(env).trace(),
                old(env).mark(),
            ) == Some(Run { value: r, end: final(env).mark() }),
    {
        self.class.lookup(env, Member::Field, Scope::Instance, name, sig)
    }

    /// The token of the static field of this object's class.
    pub fn get_static_field_id<T: CallTable>(&self, env: &mut Jenv<T>, name: &str, sig: &str) -> (r:
        Result<u64, JniError>)
        ensures
            old(env).trace().is_prefix_of(final(env).trace()),
            lookup_run(
                Member::Field,
                Scope::Static,
                self@.class,
                name@,
                sig@,
                final(env).trace(),
                old(env).mark(),
            ) == Some(Run { value: r, end: final(env).mark() }),
    {
        self.class.lookup(env, Member::Field, Scope::Static, name, sig)
    }

    /// The token of the method of this object with this name and signature.
    pub fn get_method_id<T: CallTable>(&self, env: &mut Jenv<T>, name: &str, sig: &str) -> (r:
        Result<u64, JniError>)
        ensures
            old(env).trace().is_prefix_of(final(env).trace()),
            lookup_run(
                Member::Method,
                Scope::Instance,
                self@.class,
                name@,
                sig@,
                final(env).trace(),
                old(env).mark(),
            ) == Some(Run { value: r, end: final(env).mark() }),
    {
        self.class.lookup(env, Member::Method, Scope::Instance, name, sig)
    }

    /// The token of the static method of this object's class.
    pub fn get_static_method_id<T: CallTable>(&self, env: &mut Jenv<T>, name: &str, sig: &str) -> (r:
        Result<u64, JniError>)
        ensures
            old(env).trace().is_prefix_of(final(env).trace()),
            lookup_run(
                Member::Method,
                Scope::Static,
                self@.class,
                name@,
                sig@,
                final(env).trace(),
                old(env).mark(),
            ) == Some(Run { value: r, end: final(env).mark() }),
    {
        self.class.lookup(env, Member::Method, Scope::Static, name, sig)
    }

    /// Reads the field `name`, which holds an object, and wraps what it holds.
    pub fn get_field_object<T: CallTable>(&self, env: &mut Jenv<T>, name: &str, sig: &str) -> (r:
        Result<JObject, JniError>)
        ensures
            old(env).trace().is_prefix_of(final(env).trace()),
            get_object_run(self@, name@, sig@, final(env).trace(), old(env).mark()) == Some(
                Run { value: viewed(r), end: final(env).mark() },
            ),
    {
        self.object_access(env, Access::FieldGet, name, sig, no_args())
    }

    /// Reads the field `name` of kind `boolean`.
    pub fn get_field_boolean<T: CallTable>(&self, env: &mut Jenv<T>, name: &str, sig: &str) -> (r:
        Result<bool, JniError>)
        ensures
            old(env).trace().is_prefix_of(final(env).trace()),
            decoded(
                get_run(Kind::Boolean, self@, name@, sig@, final(env).trace(), old(env).mark()),
                |slot: u64| slot_boolean(slot),
            ) == Some(Run { value: r, end: final(env).mark() }),
    {
        match self.access(env, Access::FieldGet, Kind::Boolean, name, sig, no_args()) {
            Ok(slot) => Ok(decode_boolean(slot)),
            Err(e) => Err(e),
        }
    }

    /// Reads the field `name` of kind `byte`.
    pub fn get_field_byte<T: CallTable>(&self, env: &mut Jenv<T>, name: &str, sig: &str) -> (r:
        Result<i8, JniError>)
        ensures
            old(env).trace().is_prefix_of(final(env).trace()),
            decoded(
                get_run(Kind::Byte, self@, name@, sig@, final(env).trace(), old(env).mark()),
                |slot: u64| slot_byte(slot),
            ) == Some(Run { value: r, end: final(env).mark() }),
    {
        match self.access(env, Access::FieldGet, Kind::Byte, name, sig, no_args()) {
            Ok(slot) => Ok(decode_byte(slot)),
            Err(e) => Err(e),
        }
    }

    /// Reads the field `name` of kind `char`.
    pub fn get_field_char<T: CallTable>(&self, env: &mut Jenv<T>, name: &str, sig: &str) -> (r:
        Result<char, JniError>)
        ensures
            old(env).trace().is_prefix_of(final(env).trace()),
            decoded(
                get_run(Kind::Char, self@, name@, sig@, final(env).trace(), old(env).mark()),
                |slot: u64| slot_char(slot),
            ) == Some(Run { value: r, end: final(env).mark() }),
    {
        match self.access(env, Access::FieldGet, Kind::Char, name, sig, no_args()) {
            Ok(slot) => Ok(decode_char(slot)),
            Err(e) => Err(e),
        }
    }

    /// Reads the field `name` of kind `short`.
    pub fn get_field_short<T: CallTable>(&self, env: &mut Jenv<T>, name: &str, sig: &str) -> (r:
        Result<i16, JniError>)
        ensures
            old(env).trace().is_prefix_of(final(env).trace()),
            decoded(
                get_run(Kind::Short, self@, name@, sig@, final(env).trace(), old(env).mark()),
                |slot: u64| slot_short(slot),
            ) == Some(Run { value: r, end: final(env).mark() }),
    {
        match self.access(env, Access::FieldGet, Kind::Short, name, sig, no_args()) {
            Ok(slot) => Ok(decode_short(slot)),
            Err(e) => Err(e),
        }
    }

    /// Reads the field `name` of kind `int`.
    pub fn get_field_int<T: CallTable>(&self, env: &mut Jenv<T>, name: &str, sig: &str) -> (r:
        Result<i32, JniError>)
        ensures
            old(env).trace().is_prefix_of(final(env).trace()),
            decoded(
                get_run(Kind::Int, self@, name@, sig@, final(env).trace(), old(env).mark()),
                |slot: u64| slot_int(slot),
            ) == Some(Run { value: r, end: final(env).mark() }),
    {
        match self.access(env, Access::FieldGet, Kind::Int, name, sig, no_args()) {
            Ok(slot) => Ok(decode_int(slot)),
            Err(e) => Err(e),
        }
    }

    /// Reads the field `name` of kind `long`.
    pub fn get_field_long<T: CallTable>(&self, env: &mut Jenv<T>, name: &str, sig: &str) -> (r:
        Result<i64, JniError>)
        ensures
            old(env).trace().is_prefix_of(final(env).trace()),
            decoded(
                get_run(Kind::Long, self@, name@, sig@, final(env).trace(), old(env).mark()),
                |slot: u64| slot_long(slot),
            ) == Some(Run { value: r, end: final(env).mark() }),
    {
        match self.access(env, Access::FieldGet, Kind::Long, name, sig, no_args()) {
            Ok(slot) => Ok(decode_long(slot)),
            Err(e) => Err(e),
        }
    }

    /// Reads the field `name` of kind `float`, given by its bit pattern.
    pub fn get_field_float<T: CallTable>(&self, env: &mut Jenv<T>, name: &str, sig: &str) -> (r:
        Result<u32, JniError>)
        ensures
            old(env).trace().is_prefix_of(final(env).trace()),
            decoded(
                get_run(Kind::Float, self@, name@, sig@, final(env).trace(), old(env).mark()),
                |slot: u64| slot_float(slot),
            ) == Some(Run { value: r, end: final(env).mark() }),
    {
        match self.access(env, Access::FieldGet, Kind::Float, name, sig, no_args()) {
            Ok(slot) => Ok(decode_float(slot)),
            Err(e) => Err(e),
        }
    }

    /// Reads the field `name` of kind `double`, given by its bit pattern.
    pub fn get_field_double<T: CallTable>(&self, env: &mut Jenv<T>, name: &str, sig: &str) -> (r:
        Result<u64, JniError>)
        ensures
            old(env).trace().is_prefix_of(final(env).trace()),
            get_run(Kind::Double, self@, name@, sig@, final(env).trace(), old(env).mark()) == Some(
                Run { value: r, end: final(env).mark() },
            ),
    {
        self.access(env, Access::FieldGet, Kind::Double, name, sig, no_args())
    }

    /// Makes the field `name` refer to the object of `new_value`.
    pub fn set_field_object<T: CallTable>(
        &self,
        env: &mut Jenv<T>,
        name: &str,
        sig: &str,
        new_value: &JObject,
    ) -> (r: Result<(), JniError>)
        ensures
            old(env).trace().is_prefix_of(final(env).trace()),
            set_run(
                Kind::Object,
                self@,
                name@,
                sig@,
                new_value.ptr,
                final(env).trace(),
                old(env).mark(),
            ) == Some(Run { value: r, end: final(env).mark() }),
    {
        self.set(env, Kind::Object, name, sig, new_value.ptr)
    }

    /// Writes `new_value` to the field `name` of kind `boolean`.
    pub fn set_field_boolean<T: CallTable>(
        &self,
        env: &mut Jenv<T>,
        name: &str,
        sig: &str,
        new_value: bool,
    ) -> (r: Result<(), JniError>)
        ensures
            old(env).trace().is_prefix_of(final(env).trace()),
            set_run(
                Kind::Boolean,
                self@,
                name@,
                sig@,
                boolean_slot(new_value),
                final(env).trace(),
                old(env).mark(),
            ) == Some(Run { value: r, end: final(env).mark() }),
    {
        self.set(env, Kind::Boolean, name, sig, encode_boolean(new_value))
    }

    /// Writes `new_value` to the field `name` of kind `byte`.
    pub fn set_field_byte<T: CallTable>(
        &self,
        env: &mut Jenv<T>,
        name: &str,
        sig: &str,
        new_value: i8,
    ) -> (r: Result<(), JniError>)
        ensures
            old(env).trace().is_prefix_of(final(env).trace()),
            set_run(
                Kind::Byte,
                self@,
                name@,
                sig@,
                byte_slot(new_value),
                final(env).trace(),
                old(env).mark(),
            ) == Some(Run { value: r, end: final(env).mark() }),
    {
        self.set(env, Kind::Byte, name, sig, encode_byte(new_value))
    }

    /// Writes `new_value` to the field `name` of kind `char`.
    pub fn set_field_char<T: CallTable>(
        &self,
        env: &mut Jenv<T>,
        name: &str,
        sig: &str,
        new_value: char,
    ) -> (r: Result<(), JniError>)
        ensures
            old(env).trace().is_prefix_of(final(env).trace()),
            set_run(
                Kind::Char,
                self@,
                name@,
                sig@,
                char_slot(new_value),
                final(env).trace(),
                old(env).mark(),
            ) == Some(Run { value: r, end: final(env).mark() }),
    {
        self.set(env, Kind::Char, name, sig, encode_char(new_value))
    }

    /// Writes `new_value` to the field `name` of kind `short`.
    pub fn set_field_short<T: CallTable>(
        &self,
        env: &mut Jenv<T>,
        name: &str,
        sig: &str,
        new_value: i16,
    ) -> (r: Result<(), JniError>)
        ensures
            old(env).trace().is_prefix_of(final(env).trace()),
            set_run(
                Kind::Short,
                self@,
                name@,
                sig@,
                short_slot(new_value),
                final(env).trace(),
                old(env).mark(),
            ) == Some(Run { value: r, end: final(env).mark() }),
    {
        self.set(env, Kind::Short, name, sig, encode_short(new_value))
    }

    /// Writes `new_value` to the field `name` of kind `int`.
    pub fn set_field_int<T: CallTable>(
        &self,
        env: &mut Jenv<T>,
        name: &str,
        sig: &str,
        new_value: i32,
    ) -> (r: Result<(), JniError>)
        ensures
            old(env).trace().is_prefix_of(final(env).trace()),
            set_run(
                Kind::Int,
                self@,
                name@,
                sig@,
                int_slot(new_value),
                final(env).trace(),
                old(env).mark(),
            ) == Some(Run { value: r, end: final(env).mark() }),
    {
        self.set(env, Kind::Int, name, sig, encode_int(new_value))
    }

    /// Writes `new_value` to the field `name` of kind `long`.
    pub fn set_field_long<T: CallTable>(
        &self,
        env: &mut Jenv<T>,
        name: &str,
        sig: &str,
        new_value: i64,
    ) -> (r: Result<(), JniError>)
        ensures
            old(env).trace().is_prefix_of(final(env).trace()),
            set_run(
                Kind::Long,
                self@,
                name@,
                sig@,
                long_slot(new_value),
                final(env).trace(),
                old(env).mark(),
            ) == Some(Run { value: r, end: final(env).mark() }),
    {
        self.set(env, Kind::Long, name, sig, encode_long(new_value))
    }

    /// Writes `new_value` to the field `name` of kind `float`.
    pub fn set_field_float<T: CallTable>(
        &self,
        env: &mut Jenv<T>,
        name: &str,
        sig: &str,
        new_value: u32,
    ) -> (r: Result<(), JniError>)
        ensures
            old(env).trace().is_prefix_of(final(env).trace()),
            set_run(
                Kind::Float,
                self@,
                name@,
                sig@,
                float_slot(new_value),
                final(env).trace(),
                old(env).mark(),
            ) == Some(Run { value: r, end: final(env).mark() }),
    {
        self.set(env, Kind::Float, name, sig, encode_float(new_value))
    }

    /// Writes `new_value` to the field `name` of kind `double`.
    pub fn set_field_double<T: CallTable>(
        &self,
        env: &mut Jenv<T>,
        name: &str,
        sig: &str,
        new_value: u64,
    ) -> (r: Result<(), JniError>)
        ensures
            old(env).trace().is_prefix_of(final(env).trace()),
            set_run(
                Kind::Double,
                self@,
                name@,
                sig@,
                new_value,
                final(env).trace(),
                old(env).mark(),
            ) == Some(Run { value: r, end: final(env).mark() }),
    {
        self.set(env, Kind::Double, name, sig, new_value)
    }

    /// Calls the method `name`, which returns an object, and wraps what it returns.
    pub fn call_object_method<T: CallTable>(
        &self,
        env: &mut Jenv<T>,
        name: &str,
        sig: &str,
        args: &Vec<JValue>,
    ) -> (r: Result<JObject, JniError>)
        ensures
            old(env).trace().is_prefix_of(final(env).trace()),
            call_object_run(self@, name@, sig@, marshalled(args@), final(env).trace(), old(env).mark())
                == Some(Run { value: viewed(r), end: final(env).mark() }),
    {
        let args = marshal(args);
        self.object_access(env, Access::MethodCall, name, sig, args.as_slice())
    }

    /// Calls the method `name`, which returns a `boolean`.
    pub fn call_boolean_method<T: CallTable>(
        &self,
        env: &mut Jenv<T>,
        name: &str,
        sig: &str,
        args: &Vec<JValue>,
    ) -> (r: Result<bool, JniError>)
        ensures
            old(env).trace().is_prefix_of(final(env).trace()),
            decoded(
                call_run(
                    Kind::Boolean,
                    self@,
                    name@,
                    sig@,
                    marshalled(args@),
                    final(env).trace(),
                    old(env).mark(),
                ),
                |slot: u64| slot_boolean(slot),
            ) == Some(Run { value: r, end: final(env).mark() }),
    {
        let args = marshal(args);
        match self.access(env, Access::MethodCall, Kind::Boolean, name, sig, args.as_slice()) {
            Ok(slot) => Ok(decode_boolean(slot)),
            Err(e) => Err(e),
        }
    }

    /// Calls the method `name`, which returns a `char`.
    pub fn call_char_method<T: CallTable>(
        &self,
        env: &mut Jenv<T>,
        name: &str,
        sig: &str,
        args: &Vec<JValue>,
    ) -> (r: Result<char, JniError>)
        ensures
            old(env).trace().is_prefix_of(final(env).trace()),
            decoded(
                call_run(
                    Kind::Char,
                    self@,
                    name@,
                    sig@,
                    marshalled(args@),
                    final(env).trace(),
                    old(env).mark(),
                ),
                |slot: u64| slot_char(slot),
            ) == Some(Run { value: r, end: final(env).mark() }),
    {
        let args = marshal(args);
        match self.access(env, Access::MethodCall, Kind::Char, name, sig, args.as_slice()) {
            Ok(slot) => Ok(decode_char(slot)),
            Err(e) => Err(e),
        }
    }

    /// Calls the method `name`, which returns a `byte`.
    pub fn call_byte_method<T: CallTable>(
        &self,
        env: &mut Jenv<T>,
        name: &str,
        sig: &str,
        args: &Vec<JValue>,
    ) -> (r: Result<i8, JniError>)
        ensures
            old(env).trace().is_prefix_of(final(env).trace()),
            decoded(
                call_run(
                    Kind::Byte,
                    self@,
                    name@,
                    sig@,
                    marshalled(args@),
                    final(env).trace(),
                    old(env).mark(),
                ),
                |slot: u64| slot_byte(slot),
            ) == Some(Run { value: r, end: final(env).mark() }),
    {
        let args = marshal(args);
        match self.access(env, Access::MethodCall, Kind::Byte, name, sig, args.as_slice()) {
            Ok(slot) => Ok(decode_byte(slot)),
            Err(e) => Err(e),
        }
    }

    /// Calls the method `name`, which returns a `short`.
    pub fn call_short_method<T: CallTable>(
        &self,
        env: &mut Jenv<T>,
        name: &str,
        sig: &str,
        args: &Vec<JValue>,
    ) -> (r: Result<i16, JniError>)
        ensures
            old(env).trace().is_prefix_of(final(env).trace()),
            decoded(
                call_run(
                    Kind::Short,
                    self@,
                    name@,
                    sig@,
                    marshalled(args@),
                    final(env).trace(),
                    old(env).mark(),
                ),
                |slot: u64| slot_short(slot),
            ) == Some(Run { value: r, end: final(env).mark() }),
    {
        let args = marshal(args);
        match self.access(env, Access::MethodCall, Kind::Short, name, sig, args.as_slice()) {
            Ok(slot) => Ok(decode_short(slot)),
            Err(e) => Err(e),
        }
    }

    /// Calls the method `name`, which returns an `int`.
    pub fn call_int_method<T: CallTable>(
        &self,
        env: &mut Jenv<T>,
        name: &str,
        sig: &str,
        args: &Vec<JValue>,
    ) -> (r: Result<i32, JniError>)
        ensures
            old(env).trace().is_prefix_of(final(env).trace()),
            decoded(
                call_run(
                    Kind::Int,
                    self@,
                    name@,
                    sig@,
                    marshalled(args@),
                    final(env).trace(),
                    old(env).mark(),
                ),
                |slot: u64| slot_int(slot),
            ) == Some(Run { value: r, end: final(env).mark() }),
    {
        let args = marshal(args);
        match self.access(env, Access::MethodCall, Kind::Int, name, sig, args.as_slice()) {
            Ok(slot) => Ok(decode_int(slot)),
            Err(e) => Err(e),
        }
    }

    /// Calls the method `name`, which returns a `long`.
    pub fn call_long_method<T: CallTable>(
        &self,
        env: &mut Jenv<T>,
        name: &str,
        sig: &str,
        args: &Vec<JValue>,
    ) -> (r: Result<i64, JniError>)
        ensures
            old(env).trace().is_prefix_of(final(env).trace()),
            decoded(
                call_run(
                    Kind::Long,
                    self@,
                    name@,
                    sig@,
                    marshalled(args@),
                    final(env).trace(),
                    old(env).mark(),
                ),
                |slot: u64| slot_long(slot),
            ) == Some(Run { value: r, end: final(env).mark() }),
    {
        let args = marshal(args);
        match self.access(env, Access::MethodCall, Kind::Long, name, sig, args.as_slice()) {
            Ok(slot) => Ok(decode_long(slot)),
            Err(e) => Err(e),
        }
    }

    /// Calls the method `name`, which returns a `float`, given by its bit pattern.
    pub fn call_float_method<T: CallTable>(
        &self,
        env: &mut Jenv<T>,
        name: &str,
        sig: &str,
        args: &Vec<JValue>,
    ) -> (r: Result<u32, JniError>)
        ensures
            old(env).trace().is_prefix_of(final(env).trace()),
            decoded(
                call_run(
                    Kind::Float,
                    self@,
                    name@,
                    sig@,
                    marshalled(args@),
                    final(env).trace(),
                    old(env).mark(),
                ),
                |slot: u64| slot_float(slot),
            ) == Some(Run { value: r, end: final(env).mark() }),
    {
        let args = marshal(args);
        match self.access(env, Access::MethodCall, Kind::Float, name, sig, args.as_slice()) {
            Ok(slot) => Ok(decode_float(slot)),
            Err(e) => Err(e),
        }
    }

    /// Calls the method `name`, which returns a `double`, given by its bit pattern.
    pub fn call_double_method<T: CallTable>(
        &self,
        env: &mut Jenv<T>,
        name: &str,
        sig: &str,
        args: &Vec<JValue>,
    ) -> (r: Result<u64, JniError>)
        ensures
            old(env).trace().is_prefix_of(final(env).trace()),
            call_run(Kind::Double, self@, name@, sig@, marshalled(args@), final(env).trace(), old(env).mark())
                == Some(Run { value: r, end: final(env).mark() }),
    {
        let args = marshal(args);
        self.access(env, Access::MethodCall, Kind::Double, name, sig, args.as_slice())
    }

    /// Calls the method `name`, which returns nothing.
    pub fn call_void_method<T: CallTable>(
        &self,
        env: &mut Jenv<T>,
        name: &str,
        sig: &str,
        args: &Vec<JValue>,
    ) -> (r: Result<(), JniError>)
        ensures
            old(env).trace().is_prefix_of(final(env).trace()),
            done(
                call_run(
                    Kind::Void,
                    self@,
                    name@,
                    sig@,
                    marshalled(args@),
                    final(env).trace(),
                    old(env).mark(),
                ),
            ) == Some(Run { value: r, end: final(env).mark() }),
    {
        let args = marshal(args);
        match self.access(env, Access::MethodCall, Kind::Void, name, sig, args.as_slice()) {
            Ok(_) => Ok(()),
            Err(e) => Err(e),
        }
    }
}

} // verus!
