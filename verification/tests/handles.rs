use std::collections::HashMap;
use std::sync::Arc;

use jni::call::{is_fitting, no_args, Call, CallTable};
use jni::class::JClass;
use jni::descriptor::{
    AbstractJField, AbstractJMethod, AbstractStaticJField, AbstractStaticJMethod, JClassInstance,
};
use jni::env::Jenv;
use jni::error::JniError;
use jni::kind::{Access, Kind, Member, Operation, Scope};
use jni::object::JObject;
use jni::slot::Arg;
use jni::jvalue::JValue;

// A small runtime to stand in for the real one: classes with a superclass,
// fields and methods, objects with their own field values, and a pending flag.

#[derive(Clone, Copy, Debug, PartialEq)]
enum Body {
    /// Hands back a fixed slot.
    Gives(u64),
    /// Hands back its first argument.
    Echo,
    /// Says whether its first argument is the null reference.
    IsNull,
    /// Makes a copy of the receiver.
    Copy,
    /// Leaves a failure pending.
    Throws,
}

struct Entry {
    class: u64,
    member: Member,
    scope: Scope,
    name: String,
    sig: String,
    token: u64,
    body: Body,
}

struct Machine {
    classes: Vec<(String, u64, u64)>,
    entries: Vec<Entry>,
    objects: HashMap<u64, u64>,
    values: HashMap<(u64, u64), u64>,
    pending: bool,
    truthy: u64,
    next: u64,
    log: Vec<Operation>,
}

const OBJECT: u64 = 0x1000;
const OBJECTS: u64 = 0x1001;
const POINT: u64 = 0x1002;
const PIXEL: u64 = 0x1003;

impl Machine {
    fn new() -> Machine {
        let mut m = Machine {
            classes: Vec::new(),
            entries: Vec::new(),
            objects: HashMap::new(),
            values: HashMap::new(),
            pending: false,
            truthy: 1,
            next: 0x2000,
            log: Vec::new(),
        };
        m.classes.push(("java/lang/Object".to_string(), OBJECT, 0));
        m.classes.push(("java/util/Objects".to_string(), OBJECTS, OBJECT));
        m.classes.push(("geo/Point".to_string(), POINT, OBJECT));
        m.classes.push(("geo/Pixel".to_string(), PIXEL, POINT));
        m.method(OBJECT, Scope::Instance, "clone", "()Ljava/lang/Object;", Body::Copy);
        m.method(OBJECT, Scope::Instance, "<init>", "()V", Body::Gives(0));
        m.method(OBJECTS, Scope::Static, "isNull", "(Ljava/lang/Object;)Z", Body::IsNull);
        m.method(POINT, Scope::Instance, "<init>", "(II)V", Body::Gives(0));
        m.method(POINT, Scope::Instance, "norm", "()I", Body::Gives(25));
        m.method(POINT, Scope::Instance, "same", "(Ljava/lang/Object;)Ljava/lang/Object;", Body::Echo);
        m.method(POINT, Scope::Instance, "none", "()Ljava/lang/Object;", Body::Gives(0));
        m.method(POINT, Scope::Instance, "boom", "()I", Body::Throws);
        m.method(POINT, Scope::Static, "count", "()I", Body::Gives(0xffff_fffd));
        m.method(POINT, Scope::Static, "origin", "()Lgeo/Point;", Body::Copy);
        m.method(POINT, Scope::Static, "flag", "(Z)Z", Body::Echo);
        m.method(POINT, Scope::Static, "letter", "(C)C", Body::Echo);
        m.method(POINT, Scope::Static, "echo", "(J)J", Body::Echo);
        m.method(POINT, Scope::Static, "reset", "()V", Body::Gives(0));
        m.method(POINT, Scope::Static, "fail", "()V", Body::Throws);
        for (name, sig) in [
            ("z", "Z"), ("b", "B"), ("c", "C"), ("s", "S"), ("i", "I"), ("j", "J"), ("f", "F"),
            ("d", "D"), ("l", "Ljava/lang/Object;"),
        ] {
            m.field(POINT, Scope::Instance, name, sig);
        }
        for (name, sig) in [
            ("Z", "Z"), ("B", "B"), ("C", "C"), ("S", "S"), ("I", "I"), ("J", "J"), ("F", "F"),
            ("D", "D"), ("L", "Ljava/lang/Object;"), ("X", "I"),
        ] {
            m.field(POINT, Scope::Static, name, sig);
        }
        m
    }

    fn fresh(&mut self) -> u64 {
        self.next += 1;
        self.next
    }

    fn method(&mut self, class: u64, scope: Scope, name: &str, sig: &str, body: Body) {
        let token = self.fresh();
        self.entries.push(Entry {
            class,
            member: Member::Method,
            scope,
            name: name.to_string(),
            sig: sig.to_string(),
            token,
            body,
        });
    }

    fn field(&mut self, class: u64, scope: Scope, name: &str, sig: &str) {
        let token = self.fresh();
        self.entries.push(Entry {
            class,
            member: Member::Field,
            scope,
            name: name.to_string(),
            sig: sig.to_string(),
            token,
            body: Body::Gives(0),
        });
    }

    fn instance(&mut self, class: u64) -> u64 {
        let ptr = self.fresh();
        self.objects.insert(ptr, class);
        ptr
    }

    fn parent(&self, class: u64) -> u64 {
        self.classes.iter().find(|c| c.1 == class).map(|c| c.2).unwrap_or(0)
    }

    fn resolve(&self, class: u64, member: Member, scope: Scope, name: &str, sig: &str) -> u64 {
        let mut at = class;
        while at != 0 {
            let hit = self.entries.iter().find(|e| {
                e.class == at && e.member == member && e.scope == scope && e.name == name
                    && e.sig == sig
            });
            if let Some(e) = hit {
                return e.token;
            }
            at = self.parent(at);
        }
        0
    }

    fn run(&mut self, receiver: u64, token: u64, args: &[Arg]) -> u64 {
        let body = self.entries.iter().find(|e| e.token == token).map(|e| e.body);
        match body {
            Some(Body::Gives(slot)) => slot,
            Some(Body::Echo) => args[0].bits,
            Some(Body::IsNull) => if args[0].bits == 0 { self.truthy } else { 0 },
            Some(Body::Copy) => {
                let class = self.objects.get(&receiver).copied().unwrap_or(receiver);
                self.instance(class)
            }
            Some(Body::Throws) | None => {
                self.pending = true;
                0
            }
        }
    }

    fn count(&self, op: Operation) -> usize {
        self.log.iter().filter(|o| **o == op).count()
    }
}

impl CallTable for Machine {
    fn invoke(&mut self, call: &Call) -> u64 {
        assert!(call.is_well_formed());
        assert!(call.op.is_catalogued());
        self.log.push(call.op);
        match call.op {
            Operation::GetVersion => 0x0015_0000,
            Operation::FindClass => {
                match self.classes.iter().find(|c| c.0 == call.name) {
                    Some(c) => c.1,
                    None => {
                        self.pending = true;
                        0
                    }
                }
            }
            Operation::GetSuperclass => self.parent(call.target),
            Operation::GetObjectClass => self.objects.get(&call.target).copied().unwrap_or(0),
            Operation::ExceptionCheck => if self.pending { self.truthy } else { 0 },
            Operation::ExceptionClear => {
                self.pending = false;
                0
            }
            Operation::Lookup(member, scope) => {
                let token = self.resolve(call.target, member, scope, call.name, call.sig);
                if token == 0 {
                    self.pending = true;
                }
                token
            }
            Operation::NewObjectA => {
                if self.entries.iter().any(|e| e.token == call.member) {
                    self.instance(call.target)
                } else {
                    self.pending = true;
                    0
                }
            }
            Operation::Typed(Access::FieldGet, _, kind) => {
                let held = self.values.get(&(call.target, call.member)).copied().unwrap_or(0);
                if kind == Kind::Boolean && held != 0 { self.truthy } else { held }
            }
            Operation::Typed(Access::FieldSet, _, _) => {
                self.values.insert((call.target, call.member), call.args[0].bits);
                0
            }
            Operation::Typed(Access::MethodCall, _, _) => {
                self.run(call.target, call.member, call.args)
            }
        }
    }
}

fn attached() -> Jenv<Machine> {
    Jenv::new(Machine::new())
}

fn point(env: &mut Jenv<Machine>) -> JObject {
    let class = env.find_class("geo/Point").unwrap();
    class.new_object(env, "<init>", "(II)V", &vec![JValue::JInt(3), JValue::JInt(4)]).unwrap()
}

fn taken(env: &Jenv<Machine>, from: usize) -> Vec<Operation> {
    env.table().log[from..].to_vec()
}

const CHECK: Operation = Operation::ExceptionCheck;
const CLEAR: Operation = Operation::ExceptionClear;

// The environment.

#[test]
fn version_is_read_as_an_int() {
    let mut env = attached();
    assert_eq!(env.get_version(), 0x0015_0000);
    assert_eq!(taken(&env, 0), vec![Operation::GetVersion]);
}

#[test]
fn find_class_gives_a_handle() {
    let mut env = attached();
    let class = env.find_class("geo/Point").unwrap();
    assert_eq!(class.ptr, POINT);
    assert_eq!(taken(&env, 0), vec![Operation::FindClass, CHECK]);
    assert_eq!(JClass::find(&mut env, "geo/Pixel").unwrap().ptr, PIXEL);
}

#[test]
fn find_class_fails_with_class_not_found() {
    let mut env = attached();
    assert_eq!(env.find_class("geo/Line"), Err(JniError::ClassNotFound));
    assert_eq!(taken(&env, 0), vec![Operation::FindClass, CHECK, CLEAR]);
    assert!(!env.table().pending);
    assert_eq!(JClass::find(&mut env, "").err(), Some(JniError::ClassNotFound));
}

#[test]
fn unchecked_call_makes_one_exchange() {
    let mut env = attached();
    let reply = env.call_unchecked(&Call::plain(Operation::GetSuperclass, PIXEL));
    assert_eq!(reply, POINT);
    assert_eq!(taken(&env, 0), vec![Operation::GetSuperclass]);
}

#[test]
fn checked_call_clears_a_pending_failure() {
    let mut env = attached();
    let r = env.call_checked(&Call::find_class("no/Such"));
    assert_eq!(r, Err(JniError::PendingRuntimeFailure));
    assert!(!env.table().pending);
    let r = env.call_checked(&Call::find_class("geo/Point"));
    assert_eq!(r, Ok(POINT));
    assert_eq!(
        taken(&env, 0),
        vec![Operation::FindClass, CHECK, CLEAR, Operation::FindClass, CHECK]
    );
}

#[test]
fn a_failure_does_not_leak_into_the_next_call() {
    let mut env = attached();
    let class = env.find_class("geo/Point").unwrap();
    assert_eq!(
        class.call_static_void_method(&mut env, "fail", "()V", &Vec::new()),
        Err(JniError::PendingRuntimeFailure)
    );
    assert_eq!(class.call_static_int_method(&mut env, "count", "()I", &Vec::new()), Ok(-3));
}

#[test]
fn calls_are_well_formed_when_they_have_what_they_take() {
    let one = [Arg { kind: Kind::Int, bits: 1 }];
    let get = Operation::Typed(Access::FieldGet, Scope::Static, Kind::Int);
    let set = Operation::Typed(Access::FieldSet, Scope::Static, Kind::Int);
    let call = |op, target, member, args| Call { op, target, member, name: "", sig: "", args };
    assert!(call(get, 1, 2, &[]).is_well_formed());
    assert!(!call(get, 0, 2, &[]).is_well_formed());
    assert!(!call(get, 1, 0, &[]).is_well_formed());
    assert!(!call(get, 1, 2, &one).is_well_formed());
    assert!(call(set, 1, 2, &one).is_well_formed());
    assert!(!call(set, 1, 2, &[]).is_well_formed());
    assert!(!call(set, 1, 2, &[Arg { kind: Kind::Long, bits: 1 }]).is_well_formed());
    assert!(!call(Operation::Typed(Access::FieldGet, Scope::Static, Kind::Void), 1, 2, &[])
        .is_well_formed());
    assert!(call(Operation::Typed(Access::MethodCall, Scope::Static, Kind::Void), 1, 2, &one)
        .is_well_formed());
    assert!(call(Operation::NewObjectA, 1, 2, &one).is_well_formed());
    assert!(!call(Operation::NewObjectA, 1, 0, &one).is_well_formed());
    assert!(!call(Operation::GetObjectClass, 0, 0, &[]).is_well_formed());
    assert!(!call(Operation::GetSuperclass, 0, 0, &[]).is_well_formed());
    assert!(!Call::lookup(Member::Field, Scope::Static, 0, "a", "I").is_well_formed());
    assert!(Call::lookup(Member::Field, Scope::Static, 1, "a", "I").is_well_formed());
    assert!(Call::find_class("a/B").is_well_formed());
    assert!(Call::plain(Operation::ExceptionCheck, 0).is_well_formed());
    assert!(Call::plain(Operation::GetVersion, 0).is_well_formed());
}

#[test]
fn an_access_takes_the_arguments_of_its_sort() {
    let one = [Arg { kind: Kind::Byte, bits: 1 }];
    assert!(is_fitting(Access::FieldGet, Kind::Byte, &[]));
    assert!(!is_fitting(Access::FieldGet, Kind::Byte, &one));
    assert!(!is_fitting(Access::FieldGet, Kind::Void, &[]));
    assert!(is_fitting(Access::FieldSet, Kind::Byte, &one));
    assert!(!is_fitting(Access::FieldSet, Kind::Char, &one));
    assert!(!is_fitting(Access::FieldSet, Kind::Byte, &[]));
    assert!(is_fitting(Access::MethodCall, Kind::Void, &[]));
    assert!(is_fitting(Access::MethodCall, Kind::Object, &one));
}

#[test]
fn the_constructors_of_calls_fill_their_parts() {
    let args = [Arg { kind: Kind::Int, bits: 9 }];
    let call = Call::typed(Access::MethodCall, Scope::Instance, Kind::Long, 3, 4, &args);
    assert_eq!(call.op, Operation::Typed(Access::MethodCall, Scope::Instance, Kind::Long));
    assert_eq!((call.target, call.member, call.name, call.sig), (3, 4, "", ""));
    assert_eq!(call.args, &args);
    let call = Call::construct(5, 6, &args);
    assert_eq!(call.op, Operation::NewObjectA);
    assert_eq!((call.target, call.member), (5, 6));
    assert_eq!(call.args.len(), 1);
    let call = Call::lookup(Member::Method, Scope::Static, 7, "run", "()V");
    assert_eq!(call.op, Operation::Lookup(Member::Method, Scope::Static));
    assert_eq!((call.target, call.member, call.name, call.sig), (7, 0, "run", "()V"));
    assert!(call.args.is_empty());
    let call = Call::find_class("a/B");
    assert_eq!((call.op, call.target, call.name), (Operation::FindClass, 0, "a/B"));
    let call = Call::plain(Operation::GetSuperclass, 8);
    assert_eq!((call.op, call.target, call.member), (Operation::GetSuperclass, 8, 0));
    assert!(no_args().is_empty());
    assert_eq!(Access::FieldGet.member(), Member::Field);
    assert_eq!(Access::FieldSet.member(), Member::Field);
    assert_eq!(Access::MethodCall.member(), Member::Method);
}

// Class handles.

#[test]
fn lookups_give_tokens() {
    let mut env = attached();
    let class = env.find_class("geo/Point").unwrap();
    let from = env.table().log.len();
    let f = class.get_field_id(&mut env, "i", "I").unwrap();
    let sf = class.get_static_field_id(&mut env, "I", "I").unwrap();
    let m = class.get_method_id(&mut env, "norm", "()I").unwrap();
    let sm = class.get_static_method_id(&mut env, "count", "()I").unwrap();
    assert!(f != 0 && sf != 0 && m != 0 && sm != 0);
    assert!(f != sf && m != sm);
    assert_eq!(
        taken(&env, from),
        vec![
            Operation::Lookup(Member::Field, Scope::Instance),
            CHECK,
            Operation::Lookup(Member::Field, Scope::Static),
            CHECK,
            Operation::Lookup(Member::Method, Scope::Instance),
            CHECK,
            Operation::Lookup(Member::Method, Scope::Static),
            CHECK,
        ]
    );
}

#[test]
fn lookups_fail_with_member_not_found() {
    let mut env = attached();
    let class = env.find_class("geo/Point").unwrap();
    let from = env.table().log.len();
    assert_eq!(class.get_field_id(&mut env, "i", "J"), Err(JniError::MemberNotFound));
    assert_eq!(class.get_field_id(&mut env, "I", "I"), Err(JniError::MemberNotFound));
    assert_eq!(class.get_static_field_id(&mut env, "i", "I"), Err(JniError::MemberNotFound));
    assert_eq!(class.get_method_id(&mut env, "count", "()I"), Err(JniError::MemberNotFound));
    assert_eq!(class.get_static_method_id(&mut env, "norm", "()I"), Err(JniError::MemberNotFound));
    assert_eq!(env.table().count(CLEAR), 5);
    assert_eq!(taken(&env, from).len(), 15);
    assert!(!env.table().pending);
}

#[test]
fn the_null_class_has_no_members_and_is_not_asked() {
    let mut env = attached();
    let class = JClass::null();
    assert_eq!(class.ptr, 0);
    assert_eq!(class.get_field_id(&mut env, "i", "I"), Err(JniError::MemberNotFound));
    assert_eq!(class.get_static_int_field(&mut env, "I", "I"), Err(JniError::MemberNotFound));
    assert_eq!(
        class.call_static_int_method(&mut env, "count", "()I", &Vec::new()),
        Err(JniError::MemberNotFound)
    );
    assert_eq!(class.set_static_int_field(&mut env, "I", "I", 1), Err(JniError::MemberNotFound));
    assert_eq!(class.get_super(&mut env), Err(JniError::NoSuperclass));
    assert!(env.table().log.is_empty());
}

#[test]
fn a_class_handle_keeps_its_reference() {
    let class = JClass::new(77);
    assert_eq!(class.ptr, 77);
    let copy = class;
    assert_eq!(copy, class);
}

#[test]
fn static_fields_round_trip_for_every_kind() {
    let mut env = attached();
    let c = env.find_class("geo/Point").unwrap();
    for v in [true, false] {
        c.set_static_boolean_field(&mut env, "Z", "Z", v).unwrap();
        assert_eq!(c.get_static_boolean_field(&mut env, "Z", "Z"), Ok(v));
    }
    for v in [0i8, 1, -1, i8::MIN, i8::MAX] {
        c.set_static_byte_field(&mut env, "B", "B", v).unwrap();
        assert_eq!(c.get_static_byte_field(&mut env, "B", "B"), Ok(v));
    }
    for v in ['a', '\0', '~', '\u{ff}'] {
        c.set_static_char_field(&mut env, "C", "C", v).unwrap();
        assert_eq!(c.get_static_char_field(&mut env, "C", "C"), Ok(v));
    }
    for v in [0i16, -9917, i16::MIN, i16::MAX] {
        c.set_static_short_field(&mut env, "S", "S", v).unwrap();
        assert_eq!(c.get_static_short_field(&mut env, "S", "S"), Ok(v));
    }
    for v in [0i32, -99175165, i32::MIN, i32::MAX] {
        c.set_static_int_field(&mut env, "I", "I", v).unwrap();
        assert_eq!(c.get_static_int_field(&mut env, "I", "I"), Ok(v));
    }
    for v in [0i64, -99175165, i64::MIN, i64::MAX] {
        c.set_static_long_field(&mut env, "J", "J", v).unwrap();
        assert_eq!(c.get_static_long_field(&mut env, "J", "J"), Ok(v));
    }
    for v in [0.0f32, -99175165.0, 1.0e-30, f32::MAX] {
        c.set_static_float_field(&mut env, "F", "F", v.to_bits()).unwrap();
        let back = c.get_static_float_field(&mut env, "F", "F").unwrap();
        assert_eq!(f32::from_bits(back), v);
    }
    for v in [0.0f64, -99175165.0, 1.0e-300, f64::MAX] {
        c.set_static_double_field(&mut env, "D", "D", v.to_bits()).unwrap();
        let back = c.get_static_double_field(&mut env, "D", "D").unwrap();
        assert_eq!(f64::from_bits(back), v);
    }
}

#[test]
fn static_object_field_round_trip() {
    let mut env = attached();
    let c = env.find_class("geo/Point").unwrap();
    let p = point(&mut env);
    c.set_static_object_field(&mut env, "L", "Ljava/lang/Object;", &p).unwrap();
    let back = c.get_static_object_field(&mut env, "L", "Ljava/lang/Object;").unwrap();
    assert_eq!(back.ptr, p.ptr);
    assert_eq!(back.get_class().ptr, POINT);
}

#[test]
fn a_static_access_is_lookup_then_checked_call() {
    let mut env = attached();
    let c = env.find_class("geo/Point").unwrap();
    let from = env.table().log.len();
    c.set_static_int_field(&mut env, "I", "I", 5).unwrap();
    assert_eq!(c.get_static_int_field(&mut env, "I", "I"), Ok(5));
    assert_eq!(
        taken(&env, from),
        vec![
            Operation::Lookup(Member::Field, Scope::Static),
            CHECK,
            Operation::Typed(Access::FieldSet, Scope::Static, Kind::Int),
            CHECK,
            Operation::Lookup(Member::Field, Scope::Static),
            CHECK,
            Operation::Typed(Access::FieldGet, Scope::Static, Kind::Int),
            CHECK,
        ]
    );
}

#[test]
fn a_null_static_object_is_a_null_result() {
    let mut env = attached();
    let c = env.find_class("geo/Point").unwrap();
    let from = env.table().log.len();
    assert_eq!(
        c.get_static_object_field(&mut env, "L", "Ljava/lang/Object;").err(),
        Some(JniError::NullResult)
    );
    assert_eq!(env.table().count(Operation::GetObjectClass), 0);
    assert_eq!(taken(&env, from).len(), 4);
}

#[test]
fn a_missing_static_field_is_member_not_found() {
    let mut env = attached();
    let c = env.find_class("geo/Point").unwrap();
    assert_eq!(c.get_static_int_field(&mut env, "nope", "I"), Err(JniError::MemberNotFound));
    assert_eq!(c.get_static_long_field(&mut env, "I", "J"), Err(JniError::MemberNotFound));
    assert_eq!(c.set_static_int_field(&mut env, "nope", "I", 1), Err(JniError::MemberNotFound));
    assert_eq!(
        c.get_static_object_field(&mut env, "nope", "Ljava/lang/Object;").err(),
        Some(JniError::MemberNotFound)
    );
    assert_eq!(env.table().count(Operation::Typed(Access::FieldGet, Scope::Static, Kind::Int)), 0);
}

#[test]
fn static_methods_of_every_kind() {
    let mut env = attached();
    let c = env.find_class("geo/Point").unwrap();
    let none: Vec<JValue> = Vec::new();
    assert_eq!(c.call_static_int_method(&mut env, "count", "()I", &none), Ok(-3));
    assert_eq!(c.call_static_void_method(&mut env, "reset", "()V", &none), Ok(()));
    assert_eq!(
        c.call_static_boolean_method(&mut env, "flag", "(Z)Z", &vec![JValue::JBoolean(true)]),
        Ok(true)
    );
    assert_eq!(
        c.call_static_boolean_method(&mut env, "flag", "(Z)Z", &vec![JValue::JBoolean(false)]),
        Ok(false)
    );
    assert_eq!(
        c.call_static_char_method(&mut env, "letter", "(C)C", &vec![JValue::JChar('q')]),
        Ok('q')
    );
    let long = vec![JValue::JLong(-7)];
    assert_eq!(c.call_static_long_method(&mut env, "echo", "(J)J", &long), Ok(-7));
    assert_eq!(c.call_static_byte_method(&mut env, "echo", "(J)J", &long), Ok(-7));
    assert_eq!(c.call_static_short_method(&mut env, "echo", "(J)J", &long), Ok(-7));
    let bits = vec![JValue::JFloat(0.5f32.to_bits())];
    assert_eq!(
        c.call_static_float_method(&mut env, "echo", "(J)J", &bits).map(f32::from_bits),
        Ok(0.5)
    );
    let bits = vec![JValue::JDouble(0.25f64.to_bits())];
    assert_eq!(
        c.call_static_double_method(&mut env, "echo", "(J)J", &bits).map(f64::from_bits),
        Ok(0.25)
    );
    let made = c.call_static_object_method(&mut env, "origin", "()Lgeo/Point;", &none).unwrap();
    assert_ne!(made.ptr, 0);
    assert_eq!(made.get_class().ptr, POINT);
}

#[test]
fn a_static_method_that_fails_is_a_pending_runtime_failure() {
    let mut env = attached();
    let c = env.find_class("geo/Point").unwrap();
    let from = env.table().log.len();
    assert_eq!(
        c.call_static_void_method(&mut env, "fail", "()V", &Vec::new()),
        Err(JniError::PendingRuntimeFailure)
    );
    assert_eq!(
        taken(&env, from),
        vec![
            Operation::Lookup(Member::Method, Scope::Static),
            CHECK,
            Operation::Typed(Access::MethodCall, Scope::Static, Kind::Void),
            CHECK,
            CLEAR,
        ]
    );
}

#[test]
fn the_root_class_has_no_superclass() {
    let mut env = attached();
    let root = env.find_class("java/lang/Object").unwrap();
    assert_eq!(root.get_super(&mut env), Err(JniError::NoSuperclass));
    assert!(!env.table().log.contains(&CLEAR));
}

#[test]
fn any_other_class_has_a_superclass_that_differs_from_it() {
    let mut env = attached();
    let pixel = env.find_class("geo/Pixel").unwrap();
    let point = pixel.get_super(&mut env).unwrap();
    assert_eq!(point.ptr, POINT);
    assert_ne!(point, pixel);
    let root = point.get_super(&mut env).unwrap();
    assert_eq!(root.ptr, OBJECT);
    assert_ne!(root, point);
    assert_eq!(pixel.ptr, PIXEL);
}

#[test]
fn new_object_makes_an_instance() {
    let mut env = attached();
    let c = env.find_class("geo/Point").unwrap();
    let from = env.table().log.len();
    let p = c.new_object(&mut env, "<init>", "(II)V", &vec![JValue::JInt(1), JValue::JInt(2)])
        .unwrap();
    assert_ne!(p.ptr, 0);
    assert_eq!(p.get_class().ptr, POINT);
    assert_eq!(
        taken(&env, from),
        vec![
            Operation::Lookup(Member::Method, Scope::Instance),
            CHECK,
            Operation::NewObjectA,
            Operation::GetObjectClass,
        ]
    );
}

#[test]
fn new_object_without_such_a_constructor_is_member_not_found() {
    let mut env = attached();
    let c = env.find_class("geo/Point").unwrap();
    assert_eq!(
        c.new_object(&mut env, "<init>", "(J)V", &Vec::new()).err(),
        Some(JniError::MemberNotFound)
    );
    assert_eq!(env.table().count(Operation::NewObjectA), 0);
    assert_eq!(
        JClass::null().new_object(&mut env, "<init>", "()V", &Vec::new()).err(),
        Some(JniError::MemberNotFound)
    );
}

// Object handles.

#[test]
fn a_new_handle_asks_for_the_class_once() {
    let env = attached();
    let ptr = env.table().next + 1;
    let mut machine = env.into_table();
    assert_eq!(machine.instance(PIXEL), ptr);
    let mut env = Jenv::new(machine);
    let obj = JObject::new(ptr, &mut env);
    assert_eq!(obj.ptr, ptr);
    assert_eq!(obj.get_class().ptr, PIXEL);
    assert_eq!(obj.get_class().ptr, PIXEL);
    assert_eq!(taken(&env, 0), vec![Operation::GetObjectClass]);
}

#[test]
fn the_null_handle_makes_no_call() {
    let mut env = attached();
    let obj = JObject::null();
    assert_eq!(obj.ptr, 0);
    assert_eq!(obj.get_class().ptr, 0);
    assert_eq!(obj.get_field_int(&mut env, "i", "I"), Err(JniError::MemberNotFound));
    assert_eq!(obj.get_field_int(&mut env, "I", "I"), Err(JniError::MemberNotFound));
    assert_eq!(obj.set_field_int(&mut env, "i", "I", 1), Err(JniError::MemberNotFound));
    assert_eq!(
        obj.call_int_method(&mut env, "norm", "()I", &Vec::new()),
        Err(JniError::MemberNotFound)
    );
    assert_eq!(
        obj.get_field_object(&mut env, "l", "Ljava/lang/Object;").err(),
        Some(JniError::MemberNotFound)
    );
    assert_eq!(obj.hard_clone(&mut env).err(), Some(JniError::MemberNotFound));
    assert_eq!(obj.get_super(&mut env).err(), Some(JniError::NoSuperclass));
    assert!(env.table().log.is_empty());
}

#[test]
fn wrapping_the_null_reference_is_a_null_result() {
    let mut env = attached();
    assert_eq!(JObject::wrap(&mut env, 0).err(), Some(JniError::NullResult));
    assert!(env.table().log.is_empty());
    let p = point(&mut env);
    let again = JObject::wrap(&mut env, p.ptr).unwrap();
    assert_eq!(again.ptr, p.ptr);
    assert_eq!(again.get_class().ptr, POINT);
}

#[test]
fn instance_fields_round_trip_for_every_kind() {
    let mut env = attached();
    let p = point(&mut env);
    for v in [true, false] {
        p.set_field_boolean(&mut env, "z", "Z", v).unwrap();
        assert_eq!(p.get_field_boolean(&mut env, "z", "Z"), Ok(v));
    }
    for v in [0i8, 1, -1, i8::MIN, i8::MAX] {
        p.set_field_byte(&mut env, "b", "B", v).unwrap();
        assert_eq!(p.get_field_byte(&mut env, "b", "B"), Ok(v));
    }
    for v in ['a', '\0', '~', '\u{ff}'] {
        p.set_field_char(&mut env, "c", "C", v).unwrap();
        assert_eq!(p.get_field_char(&mut env, "c", "C"), Ok(v));
    }
    for v in [0i16, -9917, i16::MIN, i16::MAX] {
        p.set_field_short(&mut env, "s", "S", v).unwrap();
        assert_eq!(p.get_field_short(&mut env, "s", "S"), Ok(v));
    }
    for v in [0i32, -99175165, i32::MIN, i32::MAX] {
        p.set_field_int(&mut env, "i", "I", v).unwrap();
        assert_eq!(p.get_field_int(&mut env, "i", "I"), Ok(v));
    }
    for v in [0i64, -99175165, i64::MIN, i64::MAX] {
        p.set_field_long(&mut env, "j", "J", v).unwrap();
        assert_eq!(p.get_field_long(&mut env, "j", "J"), Ok(v));
    }
    for v in [0.0f32, -99175165.0, 1.0e-30, f32::MAX] {
        p.set_field_float(&mut env, "f", "F", v.to_bits()).unwrap();
        assert_eq!(p.get_field_float(&mut env, "f", "F").map(f32::from_bits), Ok(v));
    }
    for v in [0.0f64, -99175165.0, 1.0e-300, f64::MAX] {
        p.set_field_double(&mut env, "d", "D", v.to_bits()).unwrap();
        assert_eq!(p.get_field_double(&mut env, "d", "D").map(f64::from_bits), Ok(v));
    }
}

#[test]
fn a_char_beyond_a_byte_does_not_round_trip() {
    let mut env = attached();
    let p = point(&mut env);
    p.set_field_char(&mut env, "c", "C", '\u{20ac}').unwrap();
    assert_eq!(p.get_field_char(&mut env, "c", "C"), Ok('\u{ac}'));
}

#[test]
fn instance_object_field_round_trip() {
    let mut env = attached();
    let p = point(&mut env);
    let q = point(&mut env);
    p.set_field_object(&mut env, "l", "Ljava/lang/Object;", &q).unwrap();
    let back = p.get_field_object(&mut env, "l", "Ljava/lang/Object;").unwrap();
    assert_eq!(back.ptr, q.ptr);
    assert_ne!(back.ptr, p.ptr);
    assert_eq!(back.get_class().ptr, POINT);
}

#[test]
fn fields_of_two_objects_are_apart() {
    let mut env = attached();
    let p = point(&mut env);
    let q = point(&mut env);
    p.set_field_int(&mut env, "i", "I", 10).unwrap();
    q.set_field_int(&mut env, "i", "I", 20).unwrap();
    assert_eq!(p.get_field_int(&mut env, "i", "I"), Ok(10));
    assert_eq!(q.get_field_int(&mut env, "i", "I"), Ok(20));
}

#[test]
fn an_instance_member_is_tried_first_and_alone() {
    let mut env = attached();
    let p = point(&mut env);
    let from = env.table().log.len();
    p.set_field_int(&mut env, "i", "I", 9).unwrap();
    assert_eq!(
        taken(&env, from),
        vec![
            Operation::Lookup(Member::Field, Scope::Instance),
            CHECK,
            Operation::Typed(Access::FieldSet, Scope::Instance, Kind::Int),
            CHECK,
        ]
    );
}

#[test]
fn a_static_field_is_reached_through_an_object() {
    let mut env = attached();
    let c = env.find_class("geo/Point").unwrap();
    c.set_static_int_field(&mut env, "X", "I", -41).unwrap();
    let p = point(&mut env);
    let from = env.table().log.len();
    assert_eq!(p.get_field_int(&mut env, "X", "I"), Ok(-41));
    assert_eq!(
        taken(&env, from),
        vec![
            Operation::Lookup(Member::Field, Scope::Instance),
            CHECK,
            CLEAR,
            Operation::Lookup(Member::Field, Scope::Static),
            CHECK,
            Operation::Typed(Access::FieldGet, Scope::Static, Kind::Int),
            CHECK,
        ]
    );
    p.set_field_int(&mut env, "X", "I", 17).unwrap();
    assert_eq!(c.get_static_int_field(&mut env, "X", "I"), Ok(17));
}

#[test]
fn neither_instance_nor_static_is_one_failure() {
    let mut env = attached();
    let p = point(&mut env);
    let from = env.table().log.len();
    assert_eq!(p.get_field_int(&mut env, "Y", "I"), Err(JniError::MemberNotFound));
    assert_eq!(
        taken(&env, from),
        vec![
            Operation::Lookup(Member::Field, Scope::Instance),
            CHECK,
            CLEAR,
            Operation::Lookup(Member::Field, Scope::Static),
            CHECK,
            CLEAR,
        ]
    );
    assert!(!env.table().pending);
    assert_eq!(p.set_field_long(&mut env, "Y", "J", 1), Err(JniError::MemberNotFound));
    assert_eq!(
        p.get_field_object(&mut env, "Y", "Ljava/lang/Object;").err(),
        Some(JniError::MemberNotFound)
    );
}

#[test]
fn both_attempts_failing_collapse_into_member_not_found() {
    let mut env = attached();
    let p = point(&mut env);
    let none: Vec<JValue> = Vec::new();
    assert_eq!(p.call_int_method(&mut env, "boom", "()I", &none), Err(JniError::MemberNotFound));
    assert_eq!(
        p.call_object_method(&mut env, "none", "()Ljava/lang/Object;", &none).err(),
        Some(JniError::MemberNotFound)
    );
    assert_eq!(
        p.get_field_object(&mut env, "l", "Ljava/lang/Object;").err(),
        Some(JniError::MemberNotFound)
    );
    assert_eq!(
        p.instance_access(&mut env, Access::MethodCall, Kind::Int, "boom", "()I", &[]),
        Err(JniError::PendingRuntimeFailure)
    );
    assert_eq!(
        p.instance_object(&mut env, Access::MethodCall, "none", "()Ljava/lang/Object;", &[]).err(),
        Some(JniError::NullResult)
    );
    assert_eq!(
        p.instance_access(&mut env, Access::FieldGet, Kind::Int, "X", "I", &[]),
        Err(JniError::MemberNotFound)
    );
}

#[test]
fn methods_of_every_kind_through_an_object() {
    let mut env = attached();
    let p = point(&mut env);
    let none: Vec<JValue> = Vec::new();
    assert_eq!(p.call_int_method(&mut env, "norm", "()I", &none), Ok(25));
    assert_eq!(p.call_long_method(&mut env, "norm", "()I", &none), Ok(25));
    assert_eq!(p.call_short_method(&mut env, "norm", "()I", &none), Ok(25));
    assert_eq!(p.call_byte_method(&mut env, "norm", "()I", &none), Ok(25));
    assert_eq!(p.call_boolean_method(&mut env, "norm", "()I", &none), Ok(true));
    assert_eq!(p.call_char_method(&mut env, "norm", "()I", &none), Ok('\u{19}'));
    assert_eq!(p.call_float_method(&mut env, "norm", "()I", &none), Ok(25));
    assert_eq!(p.call_double_method(&mut env, "norm", "()I", &none), Ok(25));
    assert_eq!(p.call_void_method(&mut env, "norm", "()I", &none), Ok(()));
    assert_eq!(p.call_int_method(&mut env, "count", "()I", &none), Ok(-3));
    assert_eq!(p.call_void_method(&mut env, "reset", "()V", &none), Ok(()));
    let q = point(&mut env);
    let sig = "(Ljava/lang/Object;)Ljava/lang/Object;";
    let same = p.call_object_method(&mut env, "same", sig, &vec![JValue::JObject(&q)]).unwrap();
    assert_eq!(same.ptr, q.ptr);
    let made = p.call_object_method(&mut env, "origin", "()Lgeo/Point;", &none).unwrap();
    assert_eq!(made.get_class().ptr, POINT);
}

#[test]
fn object_lookups_go_to_the_cached_class() {
    let mut env = attached();
    let p = point(&mut env);
    let c = env.find_class("geo/Point").unwrap();
    assert_eq!(p.get_field_id(&mut env, "i", "I"), c.get_field_id(&mut env, "i", "I"));
    assert_eq!(
        p.get_static_field_id(&mut env, "I", "I"),
        c.get_static_field_id(&mut env, "I", "I")
    );
    assert_eq!(p.get_method_id(&mut env, "norm", "()I"), c.get_method_id(&mut env, "norm", "()I"));
    assert_eq!(
        p.get_static_method_id(&mut env, "count", "()I"),
        c.get_static_method_id(&mut env, "count", "()I")
    );
    assert_eq!(p.get_field_id(&mut env, "I", "I"), Err(JniError::MemberNotFound));
    assert_eq!(p.get_static_method_id(&mut env, "norm", "()I"), Err(JniError::MemberNotFound));
}

#[test]
fn get_class_is_value_equal_for_two_handles_on_one_object() {
    let mut env = attached();
    let p = point(&mut env);
    let again = JObject::new(p.ptr, &mut env);
    assert_eq!(*p.get_class(), *again.get_class());
    assert_eq!(p.get_class().ptr, again.get_class().ptr);
    assert!(!Arc::ptr_eq(&p.get_class(), &again.get_class()));
}

#[test]
fn get_class_shares_the_cached_handle() {
    let mut env = attached();
    let p = point(&mut env);
    let from = env.table().log.len();
    let a = p.get_class();
    let b = p.get_class();
    assert!(Arc::ptr_eq(&a, &b));
    assert!(Arc::ptr_eq(&a, &p.class));
    assert_eq!(Arc::strong_count(&p.class), 3);
    let copy = p.clone();
    assert_eq!(copy.ptr, p.ptr);
    assert!(Arc::ptr_eq(&copy.class, &p.class));
    assert_eq!(Arc::strong_count(&p.class), 4);
    assert_eq!(taken(&env, from), Vec::new());
}

#[test]
fn get_super_of_an_object_is_its_class_s_superclass() {
    let mut env = attached();
    let pixel = env.find_class("geo/Pixel").unwrap();
    let obj = pixel.new_object(&mut env, "<init>", "()V", &Vec::new()).unwrap();
    let from = env.table().log.len();
    let up = obj.get_super(&mut env).unwrap();
    assert_eq!(up.ptr, POINT);
    assert_ne!(up.ptr, obj.get_class().ptr);
    assert_eq!(obj.get_class().ptr, PIXEL);
    assert_eq!(taken(&env, from), vec![Operation::GetSuperclass, Operation::GetObjectClass]);
}

#[test]
fn get_super_of_an_instance_of_the_root_fails() {
    let mut env = attached();
    let root = env.find_class("java/lang/Object").unwrap();
    let obj = root.new_object(&mut env, "<init>", "()V", &Vec::new()).unwrap();
    assert_eq!(obj.get_super(&mut env).err(), Some(JniError::NoSuperclass));
}

#[test]
fn hard_clone_gives_another_object_of_the_same_class() {
    let mut env = attached();
    let p = point(&mut env);
    let from = env.table().log.len();
    let copy = p.hard_clone(&mut env).unwrap();
    assert_ne!(copy.ptr, 0);
    assert_ne!(copy.ptr, p.ptr);
    assert_eq!(copy.get_class().ptr, POINT);
    assert_eq!(
        taken(&env, from),
        vec![
            Operation::Lookup(Member::Method, Scope::Instance),
            CHECK,
            Operation::Typed(Access::MethodCall, Scope::Instance, Kind::Object),
            CHECK,
            Operation::GetObjectClass,
            Operation::GetObjectClass,
        ]
    );
}

#[test]
fn is_null_is_true_for_the_null_handle() {
    let mut env = attached();
    assert_eq!(JObject::null().is_null(&mut env), Ok(true));
    assert_eq!(
        taken(&env, 0),
        vec![
            Operation::FindClass,
            CHECK,
            Operation::Lookup(Member::Method, Scope::Static),
            CHECK,
            Operation::Typed(Access::MethodCall, Scope::Static, Kind::Boolean),
            CHECK,
        ]
    );
}

#[test]
fn is_null_is_false_for_a_handle_on_an_object() {
    let mut env = attached();
    let p = point(&mut env);
    assert_eq!(p.is_null(&mut env), Ok(false));
    let q = JObject::new(p.ptr, &mut env);
    assert_eq!(q.is_null(&mut env), Ok(false));
}

#[test]
fn is_null_fails_where_the_runtime_lacks_the_check() {
    let mut machine = Machine::new();
    machine.classes.retain(|c| c.1 != OBJECTS);
    let mut env = Jenv::new(machine);
    assert_eq!(JObject::null().is_null(&mut env), Err(JniError::ClassNotFound));
    let mut machine = Machine::new();
    machine.entries.retain(|e| e.name != "isNull");
    let mut env = Jenv::new(machine);
    assert_eq!(JObject::null().is_null(&mut env), Err(JniError::MemberNotFound));
}

#[test]
fn objects_is_null_end_to_end() {
    let mut env = attached();
    let objects = env.find_class("java/util/Objects").unwrap();
    let none = JObject::null();
    let some = point(&mut env);
    let sig = "(Ljava/lang/Object;)Z";
    assert_eq!(
        objects.call_static_boolean_method(&mut env, "isNull", sig, &vec![JValue::JObject(&none)]),
        Ok(true)
    );
    assert_eq!(
        objects.call_static_boolean_method(&mut env, "isNull", sig, &vec![JValue::JObject(&some)]),
        Ok(false)
    );
}

#[test]
fn booleans_read_the_same_whatever_byte_the_runtime_uses() {
    for truthy in [1u64, 2, 0x80, 0xff, 0x1_01] {
        let mut machine = Machine::new();
        machine.truthy = truthy;
        let mut env = Jenv::new(machine);
        let c = env.find_class("geo/Point").unwrap();
        let p = point(&mut env);
        for v in [true, false] {
            p.set_field_boolean(&mut env, "z", "Z", v).unwrap();
            assert_eq!(p.get_field_boolean(&mut env, "z", "Z"), Ok(v));
            c.set_static_boolean_field(&mut env, "Z", "Z", v).unwrap();
            assert_eq!(c.get_static_boolean_field(&mut env, "Z", "Z"), Ok(v));
            assert_eq!(p.get_field_boolean(&mut env, "Z", "Z"), Ok(v));
        }
        assert_eq!(JObject::null().is_null(&mut env), Ok(true));
        assert_eq!(p.is_null(&mut env), Ok(false));
        assert_eq!(env.find_class("geo/Line"), Err(JniError::ClassNotFound));
        assert!(!env.table().pending);
    }
}

#[test]
fn the_canonical_true_is_what_goes_out() {
    let mut env = attached();
    let p = point(&mut env);
    p.set_field_boolean(&mut env, "z", "Z", true).unwrap();
    let token = p.get_field_id(&mut env, "z", "Z").unwrap();
    assert_eq!(env.table().values.get(&(p.ptr, token)), Some(&1));
}

// Typed descriptors.

struct Marker(JObject);

impl From<JObject> for Marker {
    fn from(obj: JObject) -> Marker {
        Marker(obj)
    }
}

impl JClassInstance for Marker {
    fn get_jobject(&self) -> JObject {
        self.0.clone()
    }
}

#[test]
fn a_static_field_descriptor_looks_its_class_up_at_every_use() {
    let mut env = attached();
    let p = point(&mut env);
    let field: AbstractStaticJField<Marker> = AbstractStaticJField::new(
        "geo/Point".to_string(),
        "L".to_string(),
        "Ljava/lang/Object;".to_string(),
    );
    assert_eq!(field.get(&mut env).err(), Some(JniError::NullResult));
    let ptr = p.ptr;
    assert_eq!(field.set(&mut env, Marker(p)), Ok(()));
    assert_eq!(field.get(&mut env).unwrap().0.ptr, ptr);
    assert_eq!(field.get(&mut env).unwrap().0.ptr, ptr);
    assert_eq!(env.table().count(Operation::FindClass), 5);
}

#[test]
fn a_static_descriptor_of_an_unknown_class_fails() {
    let mut env = attached();
    let p = point(&mut env);
    let field: AbstractStaticJField<Marker> =
        AbstractStaticJField::new("geo/Line".to_string(), "L".to_string(), "I".to_string());
    assert_eq!(field.get(&mut env).err(), Some(JniError::ClassNotFound));
    assert_eq!(field.set(&mut env, Marker(p)), Err(JniError::ClassNotFound));
    let method: AbstractStaticJMethod<Marker> = AbstractStaticJMethod::new(
        "geo/Line".to_string(),
        "origin".to_string(),
        "()Lgeo/Point;".to_string(),
        Vec::new(),
    );
    assert_eq!(method.call(&mut env).err(), Some(JniError::ClassNotFound));
}

#[test]
fn a_static_method_descriptor_calls_with_its_bound_arguments() {
    let mut env = attached();
    let method: AbstractStaticJMethod<JObject> = AbstractStaticJMethod::new(
        "geo/Point".to_string(),
        "origin".to_string(),
        "()Lgeo/Point;".to_string(),
        Vec::new(),
    );
    let a = method.call(&mut env).unwrap();
    let b = method.call(&mut env).unwrap();
    assert_ne!(a.ptr, b.ptr);
    assert_eq!(a.get_class().ptr, POINT);
    assert_eq!(env.table().count(Operation::FindClass), 2);
    let missing: AbstractStaticJMethod<JObject> = AbstractStaticJMethod::new(
        "geo/Point".to_string(),
        "nowhere".to_string(),
        "()Lgeo/Point;".to_string(),
        Vec::new(),
    );
    assert_eq!(missing.call(&mut env).err(), Some(JniError::MemberNotFound));
}

#[test]
fn a_field_descriptor_reads_and_writes_through_its_parent() {
    let mut env = attached();
    let p = point(&mut env);
    let q = point(&mut env);
    let ptr = q.ptr;
    let field: AbstractJField<Marker> =
        AbstractJField::new(&p, "l".to_string(), "Ljava/lang/Object;".to_string());
    assert_eq!(field.get(&mut env).err(), Some(JniError::MemberNotFound));
    assert_eq!(field.set(&mut env, Marker(q)), Ok(()));
    assert_eq!(field.get(&mut env).unwrap().0.ptr, ptr);
    let shared: AbstractJField<Marker> =
        AbstractJField::new(&p, "L".to_string(), "Ljava/lang/Object;".to_string());
    let r = point(&mut env);
    let ptr = r.ptr;
    assert_eq!(shared.set(&mut env, Marker(r)), Ok(()));
    assert_eq!(shared.get(&mut env).unwrap().0.ptr, ptr);
}

#[test]
fn a_method_descriptor_calls_through_its_parent() {
    let mut env = attached();
    let p = point(&mut env);
    let q = point(&mut env);
    let method: AbstractJMethod<Marker> = AbstractJMethod::new(
        &p,
        "same".to_string(),
        "(Ljava/lang/Object;)Ljava/lang/Object;".to_string(),
        vec![JValue::JObject(&q)],
    );
    assert_eq!(method.call(&mut env).unwrap().0.ptr, q.ptr);
    assert_eq!(method.call(&mut env).unwrap().0.ptr, q.ptr);
    let none: AbstractJMethod<Marker> = AbstractJMethod::new(
        &p,
        "none".to_string(),
        "()Ljava/lang/Object;".to_string(),
        Vec::new(),
    );
    assert_eq!(none.call(&mut env).err(), Some(JniError::MemberNotFound));
}

#[test]
fn a_handle_stands_for_itself() {
    let mut env = attached();
    let p = point(&mut env);
    let same = p.get_jobject();
    assert_eq!(same.ptr, p.ptr);
    assert!(Arc::ptr_eq(&same.class, &p.class));
}

#[test]
fn a_handle_converts_to_a_second_handle_on_the_same_object() {
    let mut env = attached();
    let p = point(&mut env);
    let from = env.table().log.len();
    let q = JObject::from(&p);
    assert_eq!(q.ptr, p.ptr);
    assert!(Arc::ptr_eq(&q.class, &p.class));
    assert_eq!(taken(&env, from), Vec::new());
}

#[test]
fn an_object_that_is_a_class_converts_to_a_class_handle() {
    let mut env = attached();
    let mut obj = JObject::null();
    obj.ptr = POINT;
    let class = JClass::from(obj);
    assert_eq!(class.ptr, POINT);
    assert_eq!(class.call_static_int_method(&mut env, "count", "()I", &Vec::new()), Ok(-3));
    let method: AbstractStaticJMethod<JClass> = AbstractStaticJMethod::new(
        "geo/Point".to_string(),
        "origin".to_string(),
        "()Lgeo/Point;".to_string(),
        Vec::new(),
    );
    assert_ne!(method.call(&mut env).unwrap().ptr, 0);
}

#[test]
fn inherited_members_are_found_by_the_runtime() {
    let mut env = attached();
    let pixel = env.find_class("geo/Pixel").unwrap();
    let obj = pixel.new_object(&mut env, "<init>", "()V", &Vec::new()).unwrap();
    obj.set_field_int(&mut env, "i", "I", 12).unwrap();
    assert_eq!(obj.get_field_int(&mut env, "i", "I"), Ok(12));
    assert_eq!(obj.call_int_method(&mut env, "norm", "()I", &Vec::new()), Ok(25));
}
