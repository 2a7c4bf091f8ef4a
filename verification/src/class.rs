use vstd::prelude::*;
use crate::call::{Call, CallTable, fits, no_args};
use crate::env::Jenv;
use crate::error::JniError;
use crate::kind::{Access, Kind, Member, Operation, Scope};
use crate::object::{JObject, viewed};
use crate::protocol::{
    Run, construct_run, decoded, done, find_class_run, lemma_access_run, lemma_lookup_run,
    lookup_run, static_call_run, static_get_run, static_run, static_set_run, super_run, wrapped,
};
use crate::slot::{
    Arg, boolean_slot, byte_slot, char_slot, decode_boolean, decode_byte, decode_char, decode_float,
    decode_int, decode_long, decode_short, encode_boolean, encode_byte, encode_char,
    encode_float, encode_int, encode_long, encode_short, float_slot, int_slot, long_slot,
    short_slot, slot_boolean, slot_byte, slot_char, slot_float, slot_int, slot_long, slot_short,
};
use crate::jvalue::{JValue, marshal, marshalled};

verus! {

/// A handle on a class of the runtime, or on no class where the reference is null.
#[derive(Clone, Copy, Debug, PartialEq, Eq, Structural)]
pub struct JClass {
    pub ptr: u64,
}

impl JClass {
    pub fn new(ptr: u64) -> (class: JClass)
        ensures
            class.ptr == ptr,
    {
        JClass { ptr }
    }

    /// The handle on no class.
    pub fn null() -> (class: JClass)
        ensures
            class.ptr == 0,
    {
        JClass { ptr: 0 }
    }

    /// Looks a class up by its fully qualified name.
    pub fn find<T: CallTable>(env: &mut Jenv<T>, clz: &str) -> (r: Result<JClass, JniError>)
        ensures
            old(env).trace().is_prefix_of(final(env).trace()),
            decoded(
                find_class_run(clz@, final(env).trace(), old(env).mark()),
                |ptr: u64| JClass { ptr },
            ) == Some(Run { value: r, end: final(env).mark() }),
    {
        env.find_class(clz)
    }

    /// The superclass of this class. Fails with `NoSuperclass` where the
    /// runtime hands back the null reference, and on the null class.
    pub fn get_super<T: CallTable>(&self, env: &mut Jenv<T>) -> (r: Result<JClass, JniError>)
        ensures
            old(env).trace().is_prefix_of(final(env).trace()),
            decoded(
                super_run(self.ptr, final(env).trace(), old(env).mark()),
                |ptr: u64| JClass { ptr },
            ) == Some(Run { value: r, end: final(env).mark() }),
    {
        if self.ptr == 0 {
            return Err(JniError::NoSuperclass);
        }
        let ptr = env.call_unchecked(&Call::plain(Operation::GetSuperclass, self.ptr));
        if ptr == 0 {
            Err(JniError::NoSuperclass)
        } else {
            Ok(JClass { ptr })
        }
    }

    /// Makes an instance of this class with the constructor of the given
    /// name and signature, and wraps it.
    pub fn new_object<T: CallTable>(
        &self,
        env: &mut Jenv<T>,
        name: &str,
        sig: &str,
        args: &Vec<JValue>,
    ) -> (r: Result<JObject, JniError>)
        ensures
            old(env).trace().is_prefix_of(final(env).trace()),
            construct_run(
                self.ptr,
                name@,
                sig@,
                marshalled(args@),
                final(env).trace(),
                old(env).mark(),
            ) == Some(Run { value: viewed(r), end: final(env).mark() }),
    {
        let ghost start = env.mark();
        let token = match self.get_method_id(env, name, sig) {
            Ok(token) => token,
            Err(e) => {
                return Err(e);
            },
        };
        let args = marshal(args);
        let ghost found = env.trace();
        let ptr = env.call_unchecked(&Call::construct(self.ptr, token, args.as_slice()));
        let ghost made = env.trace();
        let r = JObject::wrap(env, ptr);
        proof {
            lemma_lookup_run(
                Member::Method,
                Scope::Instance,
                self.ptr,
                name@,
                sig@,
                found,
                env.trace(),
                start,
            );
        }
        r
    }

    /// The token of the field of instances with this name and signature.
    pub fn get_field_id<T: CallTable>(&self, env: &mut Jenv<T>, name: &str, sig: &str) -> (r:
        Result<u64, JniError>)
        ensures
            old(env).trace().is_prefix_of(final(env).trace()),
            lookup_run(
                Member::Field,
                Scope::Instance,
                self.ptr,
                name@,
                sig@,
                final(env).trace(),
                old(env).mark(),
            ) == Some(Run { value: r, end: final(env).mark() }),
    {
        self.lookup(env, Member::Field, Scope::Instance, name, sig)
    }

    /// The token of the static field with this name and signature.
    pub fn get_static_field_id<T: CallTable>(&self, env: &mut Jenv<T>, name: &str, sig: &str) -> (r:
        Result<u64, JniError>)
        ensures
            old(env).trace().is_prefix_of(final(env).trace()),
            lookup_run(
                Member::Field,
                Scope::Static,
                self.ptr,
                name@,
                sig@,
                final(env).trace(),
                old(env).mark(),
            ) == Some(Run { value: r, end: final(env).mark() }),
    {
        self.lookup(env, Member::Field, Scope::Static, name, sig)
    }

    /// The token of the method of instances with this name and signature.
    pub fn get_method_id<T: CallTable>(&self, env: &mut Jenv<T>, name: &str, sig: &str) -> (r:
        Result<u64, JniError>)
        ensures
            old(env).trace().is_prefix_of(final(env).trace()),
            lookup_run(
                Member::Method,
                Scope::Instance,
                self.ptr,
                name@,
                sig@,
                final(env).trace(),
                old(env).mark(),
            ) == Some(Run { value: r, end: final(env).mark() }),
    {
        self.lookup(env, Member::Method, Scope::Instance, name, sig)
    }

    /// The token of the static method with this name and signature.
    pub fn get_static_method_id<T: CallTable>(&self, env: &mut Jenv<T>, name: &str, sig: &str) -> (r:
        Result<u64, JniError>)
        ensures
            old(env).trace().is_prefix_of(final(env).trace()),
            lookup_run(
                Member::Method,
                Scope::Static,
                self.ptr,
                name@,
                sig@,
                final(env).trace(),
                old(env).mark(),
            ) == Some(Run { value: r, end: final(env).mark() }),
    {
        self.lookup(env, Member::Method, Scope::Static, name, sig)
    }

    /// Looks a member up on this class. What comes back is the token under
    /// which the runtime knows the member; `MemberNotFound` where the lookup
    /// leaves a failure pending or hands back no token, and on the null class.
    pub fn lookup<T: CallTable>(
        &self,
        env: &mut Jenv<T>,
        member: Member,
        scope: Scope,
        name: &str,
        sig: &str,
    ) -> (r: Result<u64, JniError>)
        ensures
            old(env).trace().is_prefix_of(final(env).trace()),
            lookup_run(member, scope, self.ptr, name@, sig@, final(env).trace(), old(env).mark())
                == Some(Run { value: r, end: final(env).mark() }),
    {
        if self.ptr == 0 {
            return Err(JniError::MemberNotFound);
        }
        match env.call_checked(&Call::lookup(member, scope, self.ptr, name, sig)) {
            Ok(token) => if token != 0 {
                Ok(token)
            } else {
                Err(JniError::MemberNotFound)
            },
            Err(_) => Err(JniError::MemberNotFound),
        }
    }

    /// One access to a static member of this class: the lookup, then the
    /// typed operation on the class, checked.
    pub fn static_access<T: CallTable>(
        &self,
        env: &mut Jenv<T>,
        access: Access,
        kind: Kind,
        name: &str,
        sig: &str,
        args: &[Arg],
    ) -> (r: Result<u64, JniError>)
        requires
            fits(access, kind, args@),
        ensures
            old(env).trace().is_prefix_of(final(env).trace()),
            static_run(
                access,
                kind,
                self.ptr,
                name@,
                sig@,
                args@,
                final(env).trace(),
                old(env).mark(),
            ) == Some(Run { value: r, end: final(env).mark() }),
    {
        if self.ptr == 0 {
            return Err(JniError::MemberNotFound);
        }
        let ghost start = env.mark();
        let token = match self.lookup(env, access.member(), Scope::Static, name, sig) {
            Ok(token) => token,
            Err(e) => {
                return Err(e);
            },
        };
        let ghost found = env.trace();
        let r = env.call_checked(&Call::typed(access, Scope::Static, kind, self.ptr, token, args));
        proof {
            lemma_lookup_run(
                access.spec_member(),
                Scope::Static,
                self.ptr,
                name@,
                sig@,
                found,
                env.trace(),
                start,
            );
        }
        r
    }

    /// The same for a static member that gives an object, which is wrapped.
    pub fn static_object<T: CallTable>(
        &self,
        env: &mut Jenv<T>,
        access: Access,
        name: &str,
        sig: &str,
        args: &[Arg],
    ) -> (r: Result<JObject, JniError>)
        requires
            fits(access, Kind::Object, args@),
        ensures
            old(env).trace().is_prefix_of(final(env).trace()),
            wrapped(
                static_run(
                    access,
                    Kind::Object,
                    self.ptr,
                    name@,
                    sig@,
                    args@,
                    final(env).trace(),
                    old(env).mark(),
                ),
                final(env).trace(),
            ) == Some(Run { value: viewed(r), end: final(env).mark() }),
    {
        let ghost start = env.mark();
        let slot = match self.static_access(env, access, Kind::Object, name, sig, args) {
            Ok(slot) => slot,
            Err(e) => {
                return Err(e);
            },
        };
        let ghost called = env.trace();
        let r = JObject::wrap(env, slot);
        proof {
            lemma_access_run(
                access,
                Scope::Static,
                Kind::Object,
                self.ptr,
                self.ptr,
                name@,
                sig@,
                args@,
                called,
                env.trace(),
                start,
            );
        }
        r
    }

    /// Writes the slot `value` to a static field of this class.
    pub fn static_set<T: CallTable>(
        &self,
        env: &mut Jenv<T>,
        kind: Kind,
        name: &str,
        sig: &str,
        value: u64,
    ) -> (r: Result<(), JniError>)
        requires
            kind != Kind::Void,
        ensures
            old(env).trace().is_prefix_of(final(env).trace()),
            static_set_run(kind, self.ptr, name@, sig@, value, final(env).trace(), old(env).mark())
                == Some(Run { value: r, end: final(env).mark() }),
    {
        let args = [Arg { kind, bits: value }];
        assert(args@ =~= seq![Arg { kind, bits: value }]);
        match self.static_access(env, Access::FieldSet, kind, name, sig, &args) {
            Ok(_) => Ok(()),
            Err(e) => Err(e),
        }
    }

    /// Calls the static method `name`, which returns an object, and wraps
    /// what it returns. The null reference is reported as `NullResult`.
    pub fn call_static_object_method<T: CallTable>(
        &self,
        env: &mut Jenv<T>,
        name: &str,
        sig: &str,
        args: &Vec<JValue>,
    ) -> (r: Result<JObject, JniError>)
        ensures
            old(env).trace().is_prefix_of(final(env).trace()),
            wrapped(
                static_call_run(
                    Kind::Object,
                    self.ptr,
                    name@,
                    sig@,
                    marshalled(args@),
                    final(env).trace(),
                    old(env).mark(),
                ),
                final(env).trace(),
            ) == Some(Run { value: viewed(r), end: final(env).mark() }),
    {
        let args = marshal(args);
        self.static_object(env, Access::MethodCall, name, sig, args.as_slice())
    }

    /// Calls the static method `name`, which returns a `boolean`.
    pub fn call_static_boolean_method<T: CallTable>(
        &self,
        env: &mut Jenv<T>,
        name: &str,
        sig: &str,
        args: &Vec<JValue>,
    ) -> (r: Result<bool, JniError>)
        ensures
            old(env).trace().is_prefix_of(final(env).trace()),
            decoded(
                static_call_run(
                    Kind::Boolean,
                    self.ptr,
                    name@,
                    sig@,
                    marshalled(args@),
                    final(env).trace(),
                    old(env).mark(),
                ),
                |slot: u64| slot_boolean(slot),
            ) == Some(Run { value: r, end: final(env).mark() }),
    {
        let args = marshal(args);
        match self.static_access(env, Access::MethodCall, Kind::Boolean, name, sig, args.as_slice()) {
            Ok(slot) => Ok(decode_boolean(slot)),
            Err(e) => Err(e),
        }
    }

    /// Calls the static method `name`, which returns a `byte`.
    pub fn call_static_byte_method<T: CallTable>(
        &self,
        env: &mut Jenv<T>,
        name: &str,
        sig: &str,
        args: &Vec<JValue>,
    ) -> (r: Result<i8, JniError>)
        ensures
            old(env).trace().is_prefix_of(final(env).trace()),
            decoded(
                static_call_run(
                    Kind::Byte,
                    self.ptr,
                    name@,
                    sig@,
                    marshalled(args@),
                    final(env).trace(),
                    old(env).mark(),
                ),
                |slot: u64| slot_byte(slot),
            ) == Some(Run { value: r, end: final(env).mark() }),
    {
        let args = marshal(args);
        match self.static_access(env, Access::MethodCall, Kind::Byte, name, sig, args.as_slice()) {
            Ok(slot) => Ok(decode_byte(slot)),
            Err(e) => Err(e),
        }
    }

    /// Calls the static method `name`, which returns a `char`.
    pub fn call_static_char_method<T: CallTable>(
        &self,
        env: &mut Jenv<T>,
        name: &str,
        sig: &str,
        args: &Vec<JValue>,
    ) -> (r: Result<char, JniError>)
        ensures
            old(env).trace().is_prefix_of(final(env).trace()),
            decoded(
                static_call_run(
                    Kind::Char,
                    self.ptr,
                    name@,
                    sig@,
                    marshalled(args@),
                    final(env).trace(),
                    old(env).mark(),
                ),
                |slot: u64| slot_char(slot),
            ) == Some(Run { value: r, end: final(env).mark() }),
    {
        let args = marshal(args);
        match self.static_access(env, Access::MethodCall, Kind::Char, name, sig, args.as_slice()) {
            Ok(slot) => Ok(decode_char(slot)),
            Err(e) => Err(e),
        }
    }

    /// Calls the static method `name`, which returns a `short`.
    pub fn call_static_short_method<T: CallTable>(
        &self,
        env: &mut Jenv<T>,
        name: &str,
        sig: &str,
        args: &Vec<JValue>,
    ) -> (r: Result<i16, JniError>)
        ensures
            old(env).trace().is_prefix_of(final(env).trace()),
            decoded(
                static_call_run(
                    Kind::Short,
                    self.ptr,
                    name@,
                    sig@,
                    marshalled(args@),
                    final(env).trace(),
                    old(env).mark(),
                ),
                |slot: u64| slot_short(slot),
            ) == Some(Run { value: r, end: final(env).mark() }),
    {
        let args = marshal(args);
        match self.static_access(env, Access::MethodCall, Kind::Short, name, sig, args.as_slice()) {
            Ok(slot) => Ok(decode_short(slot)),
            Err(e) => Err(e),
        }
    }

    /// Calls the static method `name`, which returns an `int`.
    pub fn call_static_int_method<T: CallTable>(
        &self,
        env: &mut Jenv<T>,
        name: &str,
        sig: &str,
        args: &Vec<JValue>,
    ) -> (r: Result<i32, JniError>)
        ensures
            old(env).trace().is_prefix_of(final(env).trace()),
            decoded(
                static_call_run(
                    Kind::Int,
                    self.ptr,
                    name@,
                    sig@,
                    marshalled(args@),
                    final(env).trace(),
                    old(env).mark(),
                ),
                |slot: u64| slot_int(slot),
            ) == Some(Run { value: r, end: final(env).mark() }),
    {
        let args = marshal(args);
        match self.static_access(env, Access::MethodCall, Kind::Int, name, sig, args.as_slice()) {
            Ok(slot) => Ok(decode_int(slot)),
            Err(e) => Err(e),
        }
    }

    /// Calls the static method `name`, which returns a `long`.
    pub fn call_static_long_method<T: CallTable>(
        &self,
        env: &mut Jenv<T>,
        name: &str,
        sig: &str,
        args: &Vec<JValue>,
    ) -> (r: Result<i64, JniError>)
        ensures
            old(env).trace().is_prefix_of(final(env).trace()),
            decoded(
                static_call_run(
                    Kind::Long,
                    self.ptr,
                    name@,
                    sig@,
                    marshalled(args@),
                    final(env).trace(),
                    old(env).mark(),
                ),
                |slot: u64| slot_long(slot),
            ) == Some(Run { value: r, end: final(env).mark() }),
    {
        let args = marshal(args);
        match self.static_access(env, Access::MethodCall, Kind::Long, name, sig, args.as_slice()) {
            Ok(slot) => Ok(decode_long(slot)),
            Err(e) => Err(e),
        }
    }

    /// Calls the static method `name`, which returns a `float`, given by its bit pattern.
    pub fn call_static_float_method<T: CallTable>(
        &self,
        env: &mut Jenv<T>,
        name: &str,
        sig: &str,
        args: &Vec<JValue>,
    ) -> (r: Result<u32, JniError>)
        ensures
            old(env).trace().is_prefix_of(final(env).trace()),
            decoded(
                static_call_run(
                    Kind::Float,
                    self.ptr,
                    name@,
                    sig@,
                    marshalled(args@),
                    final(env).trace(),
                    old(env).mark(),
                ),
                |slot: u64| slot_float(slot),
            ) == Some(Run { value: r, end: final(env).mark() }),
    {
        let args = marshal(args);
        match self.static_access(env, Access::MethodCall, Kind::Float, name, sig, args.as_slice()) {
            Ok(slot) => Ok(decode_float(slot)),
            Err(e) => Err(e),
        }
    }

    /// Calls the static method `name`, which returns a `double`, given by its bit pattern.
    pub fn call_static_double_method<T: CallTable>(
        &self,
        env: &mut Jenv<T>,
        name: &str,
        sig: &str,
        args: &Vec<JValue>,
    ) -> (r: Result<u64, JniError>)
        ensures
            old(env).trace().is_prefix_of(final(env).trace()),
            static_call_run(
                Kind::Double,
                self.ptr,
                name@,
                sig@,
                marshalled(args@),
                final(env).trace(),
                old(env).mark(),
            ) == Some(Run { value: r, end: final(env).mark() }),
    {
        let args = marshal(args);
        self.static_access(env, Access::MethodCall, Kind::Double, name, sig, args.as_slice())
    }

    /// Calls the static method `name`, which returns nothing.
    pub fn call_static_void_method<T: CallTable>(
        &self,
        env: &mut Jenv<T>,
        name: &str,
        sig: &str,
        args: &Vec<JValue>,
    ) -> (r: Result<(), JniError>)
        ensures
            old(env).trace().is_prefix_of(final(env).trace()),
            done(
                static_call_run(
                    Kind::Void,
                    self.ptr,
                    name@,
                    sig@,
                    marshalled(args@),
                    final(env).trace(),
                    old(env).mark(),
                ),
            ) == Some(Run { value: r, end: final(env).mark() }),
    {
        let args = marshal(args);
        match self.static_access(env, Access::MethodCall, Kind::Void, name, sig, args.as_slice()) {
            Ok(_) => Ok(()),
            Err(e) => Err(e),
        }
    }

    /// Reads the static field `name`, which holds an object, and wraps what
    /// it holds. The null reference is reported as `NullResult`.
    pub fn get_static_object_field<T: CallTable>(
        &self,
        env: &mut Jenv<T>,
        name: &str,
        sig: &str,
    ) -> (r: Result<JObject, JniError>)
        ensures
            old(env).trace().is_prefix_of(final(env).trace()),
            wrapped(
                static_get_run(
                    Kind::Object,
                    self.ptr,
                    name@,
                    sig@,
                    final(env).trace(),
                    old(env).mark(),
                ),
                final(env).trace(),
            ) == Some(Run { value: viewed(r), end: final(env).mark() }),
    {
        self.static_object(env, Access::FieldGet, name, sig, no_args())
    }

    /// Reads the static field `name` of kind `boolean`.
    pub fn get_static_boolean_field<T: CallTable>(
        &self,
        env: &mut Jenv<T>,
        name: &str,
        sig: &str,
    ) -> (r: Result<bool, JniError>)
        ensures
            old(env).trace().is_prefix_of(final(env).trace()),
            decoded(
                static_get_run(Kind::Boolean, self.ptr, name@, sig@, final(env).trace(), old(env).mark()),
                |slot: u64| slot_boolean(slot),
            ) == Some(Run { value: r, end: final(env).mark() }),
    {
        match self.static_access(env, Access::FieldGet, Kind::Boolean, name, sig, no_args()) {
            Ok(slot) => Ok(decode_boolean(slot)),
            Err(e) => Err(e),
        }
    }

    /// Reads the static field `name` of kind `byte`.
    pub fn get_static_byte_field<T: CallTable>(
        &self,
        env: &mut Jenv<T>,
        name: &str,
        sig: &str,
    ) -> (r: Result<i8, JniError>)
        ensures
            old(env).trace().is_prefix_of(final(env).trace()),
            decoded(
                static_get_run(Kind::Byte, self.ptr, name@, sig@, final(env).trace(), old(env).mark()),
                |slot: u64| slot_byte(slot),
            ) == Some(Run { value: r, end: final(env).mark() }),
    {
        match self.static_access(env, Access::FieldGet, Kind::Byte, name, sig, no_args()) {
            Ok(slot) => Ok(decode_byte(slot)),
            Err(e) => Err(e),
        }
    }

    /// Reads the static field `name` of kind `char`.
    pub fn get_static_char_field<T: CallTable>(
        &self,
        env: &mut Jenv<T>,
        name: &str,
        sig: &str,
    ) -> (r: Result<char, JniError>)
        ensures
            old(env).trace().is_prefix_of(final(env).trace()),
            decoded(
                static_get_run(Kind::Char, self.ptr, name@, sig@, final(env).trace(), old(env).mark()),
                |slot: u64| slot_char(slot),
            ) == Some(Run { value: r, end: final(env).mark() }),
    {
        match self.static_access(env, Access::FieldGet, Kind::Char, name, sig, no_args()) {
            Ok(slot) => Ok(decode_char(slot)),
            Err(e) => Err(e),
        }
    }

    /// Reads the static field `name` of kind `short`.
    pub fn get_static_short_field<T: CallTable>(
        &self,
        env: &mut Jenv<T>,
        name: &str,
        sig: &str,
    ) -> (r: Result<i16, JniError>)
        ensures
            old(env).trace().is_prefix_of(final(env).trace()),
            decoded(
                static_get_run(Kind::Short, self.ptr, name@, sig@, final(env).trace(), old(env).mark()),
                |slot: u64| slot_short(slot),
            ) == Some(Run { value: r, end: final(env).mark() }),
    {
        match self.static_access(env, Access::FieldGet, Kind::Short, name, sig, no_args()) {
            Ok(slot) => Ok(decode_short(slot)),
            Err(e) => Err(e),
        }
    }

    /// Reads the static field `name` of kind `int`.
    pub fn get_static_int_field<T: CallTable>(
        &self,
        env: &mut Jenv<T>,
        name: &str,
        sig: &str,
    ) -> (r: Result<i32, JniError>)
        ensures
            old(env).trace().is_prefix_of(final(env).trace()),
            decoded(
                static_get_run(Kind::Int, self.ptr, name@, sig@, final(env).trace(), old(env).mark()),
                |slot: u64| slot_int(slot),
            ) == Some(Run { value: r, end: final(env).mark() }),
    {
        match self.static_access(env, Access::FieldGet, Kind::Int, name, sig, no_args()) {
            Ok(slot) => Ok(decode_int(slot)),
            Err(e) => Err(e),
        }
    }

    /// Reads the static field `name` of kind `long`.
    pub fn get_static_long_field<T: CallTable>(
        &self,
        env: &mut Jenv<T>,
        name: &str,
        sig: &str,
    ) -> (r: Result<i64, JniError>)
        ensures
            old(env).trace().is_prefix_of(final(env).trace()),
            decoded(
                static_get_run(Kind::Long, self.ptr, name@, sig@, final(env).trace(), old(env).mark()),
                |slot: u64| slot_long(slot),
            ) == Some(Run { value: r, end: final(env).mark() }),
    {
        match self.static_access(env, Access::FieldGet, Kind::Long, name, sig, no_args()) {
            Ok(slot) => Ok(decode_long(slot)),
            Err(e) => Err(e),
        }
    }

    /// Reads the static field `name` of kind `float`, given by its bit pattern.
    pub fn get_static_float_field<T: CallTable>(
        &self,
        env: &mut Jenv<T>,
        name: &str,
        sig: &str,
    ) -> (r: Result<u32, JniError>)
        ensures
            old(env).trace().is_prefix_of(final(env).trace()),
            decoded(
                static_get_run(Kind::Float, self.ptr, name@, sig@, final(env).trace(), old(env).mark()),
                |slot: u64| slot_float(slot),
            ) == Some(Run { value: r, end: final(env).mark() }),
    {
        match self.static_access(env, Access::FieldGet, Kind::Float, name, sig, no_args()) {
            Ok(slot) => Ok(decode_float(slot)),
            Err(e) => Err(e),
        }
    }

    /// Reads the static field `name` of kind `double`, given by its bit pattern.
    pub fn get_static_double_field<T: CallTable>(
        &self,
        env: &mut Jenv<T>,
        name: &str,
        sig: &str,
    ) -> (r: Result<u64, JniError>)
        ensures
            old(env).trace().is_prefix_of(final(env).trace()),
            static_get_run(Kind::Double, self.ptr, name@, sig@, final(env).trace(), old(env).mark())
                == Some(Run { value: r, end: final(env).mark() }),
    {
        self.static_access(env, Access::FieldGet, Kind::Double, name, sig, no_args())
    }

    /// Makes the static field `name` refer to the object of `new_value`.
    pub fn set_static_object_field<T: CallTable>(
        &self,
        env: &mut Jenv<T>,
        name: &str,
        sig: &str,
        new_value: &JObject,
    ) -> (r: Result<(), JniError>)
        ensures
            old(env).trace().is_prefix_of(final(env).trace()),
            static_set_run(
                Kind::Object,
                self.ptr,
                name@,
                sig@,
                new_value.ptr,
                final(env).trace(),
                old(env).mark(),
            ) == Some(Run { value: r, end: final(env).mark() }),
    {
        self.static_set(env, Kind::Object, name, sig, new_value.ptr)
    }

    /// Writes `new_value` to the static field `name` of kind `boolean`.
    pub fn set_static_boolean_field<T: CallTable>(
        &self,
        env: &mut Jenv<T>,
        name: &str,
        sig: &str,
        new_value: bool,
    ) -> (r: Result<(), JniError>)
        ensures
            old(env).trace().is_prefix_of(final(env).trace()),
            static_set_run(
                Kind::Boolean,
                self.ptr,
                name@,
                sig@,
                boolean_slot(new_value),
                final(env).trace(),
                old(env).mark(),
            ) == Some(Run { value: r, end: final(env).mark() }),
    {
        self.static_set(env, Kind::Boolean, name, sig, encode_boolean(new_value))
    }

    /// Writes `new_value` to the static field `name` of kind `byte`.
    pub fn set_static_byte_field<T: CallTable>(
        &self,
        env: &mut Jenv<T>,
        name: &str,
        sig: &str,
        new_value: i8,
    ) -> (r: Result<(), JniError>)
        ensures
            old(env).trace().is_prefix_of(final(env).trace()),
            static_set_run(
                Kind::Byte,
                self.ptr,
                name@,
                sig@,
                byte_slot(new_value),
                final(env).trace(),
                old(env).mark(),
            ) == Some(Run { value: r, end: final(env).mark() }),
    {
        self.static_set(env, Kind::Byte, name, sig, encode_byte(new_value))
    }

    /// Writes `new_value` to the static field `name` of kind `char`.
    pub fn set_static_char_field<T: CallTable>(
        &self,
        env: &mut Jenv<T>,
        name: &str,
        sig: &str,
        new_value: char,
    ) -> (r: Result<(), JniError>)
        ensures
            old(env).trace().is_prefix_of(final(env).trace()),
            static_set_run(
                Kind::Char,
                self.ptr,
                name@,
                sig@,
                char_slot(new_value),
                final(env).trace(),
                old(env).mark(),
            ) == Some(Run { value: r, end: final(env).mark() }),
    {
        self.static_set(env, Kind::Char, name, sig, encode_char(new_value))
    }

    /// Writes `new_value` to the static field `name` of kind `short`.
    pub fn set_static_short_field<T: CallTable>(
        &self,
        env: &mut Jenv<T>,
        name: &str,
        sig: &str,
        new_value: i16,
    ) -> (r: Result<(), JniError>)
        ensures
            old(env).trace().is_prefix_of(final(env).trace()),
            static_set_run(
                Kind::Short,
                self.ptr,
                name@,
                sig@,
                short_slot(new_value),
                final(env).trace(),
                old(env).mark(),
            ) == Some(Run { value: r, end: final(env).mark() }),
    {
        self.static_set(env, Kind::Short, name, sig, encode_short(new_value))
    }

    /// Writes `new_value` to the static field `name` of kind `int`.
    pub fn set_static_int_field<T: CallTable>(
        &self,
        env: &mut Jenv<T>,
        name: &str,
        sig: &str,
        new_value: i32,
    ) -> (r: Result<(), JniError>)
        ensures
            old(env).trace().is_prefix_of(final(env).trace()),
            static_set_run(
                Kind::Int,
                self.ptr,
                name@,
                sig@,
                int_slot(new_value),
                final(env).trace(),
                old(env).mark(),
            ) == Some(Run { value: r, end: final(env).mark() }),
    {
        self.static_set(env, Kind::Int, name, sig, encode_int(new_value))
    }

    /// Writes `new_value` to the static field `name` of kind `long`.
    pub fn set_static_long_field<T: CallTable>(
        &self,
        env: &mut Jenv<T>,
        name: &str,
        sig: &str,
        new_value: i64,
    ) -> (r: Result<(), JniError>)
        ensures
            old(env).trace().is_prefix_of(final(env).trace()),
            static_set_run(
                Kind::Long,
                self.ptr,
                name@,
                sig@,
                long_slot(new_value),
                final(env).trace(),
                old(env).mark(),
            ) == Some(Run { value: r, end: final(env).mark() }),
    {
        self.static_set(env, Kind::Long, name, sig, encode_long(new_value))
    }

    /// Writes `new_value` to the static field `name` of kind `float`.
    pub fn set_static_float_field<T: CallTable>(
        &self,
        env: &mut Jenv<T>,
        name: &str,
        sig: &str,
        new_value: u32,
    ) -> (r: Result<(), JniError>)
        ensures
            old(env).trace().is_prefix_of(final(env).trace()),
            static_set_run(
                Kind::Float,
                self.ptr,
                name@,
                sig@,
                float_slot(new_value),
                final(env).trace(),
                old(env).mark(),
            ) == Some(Run { value: r, end: final(env).mark() }),
    {
        self.static_set(env, Kind::Float, name, sig, encode_float(new_value))
    }

    /// Writes `new_value` to the static field `name` of kind `double`.
    pub fn set_static_double_field<T: CallTable>(
        &self,
        env: &mut Jenv<T>,
        name: &str,
        sig: &str,
        new_value: u64,
    ) -> (r: Result<(), JniError>)
        ensures
            old(env).trace().is_prefix_of(final(env).trace()),
            static_set_run(
                Kind::Double,
                self.ptr,
                name@,
                sig@,
                new_value,
                final(env).trace(),
                old(env).mark(),
            ) == Some(Run { value: r, end: final(env).mark() }),
    {
        self.static_set(env, Kind::Double, name, sig, new_value)
    }
}

impl From<JObject> for JClass {
    /// The reference of an object that is a class, as a class handle.
    fn from(x: JObject) -> (class: JClass) {
        JClass::new(x.ptr)
    }
}

impl vstd::std_specs::convert::FromSpecImpl<JObject> for JClass {
    open spec fn obeys_from_spec() -> bool {
        true
    }

    open spec fn from_spec(x: JObject) -> JClass {
        JClass { ptr: x.ptr }
    }
}

} // verus!
