use std::marker::PhantomData;
use std::sync::Arc;
use vstd::prelude::*;
use vstd::std_specs::convert::FromSpec;
use crate::call::{CallTable, Exchange};
use crate::class::JClass;
use crate::env::Jenv;
use crate::error::JniError;
use crate::kind::Kind;
use crate::object::JObject;
use crate::protocol::{
    ObjectView, Run, call_object_run, find_class_run, get_object_run, lemma_find_class_run,
    set_run, static_call_run, static_get_run, static_set_run, and_then, wrapped,
};
use crate::slot::Arg;
use crate::jvalue::{JValue, marshalled};

verus! {

/// A value that stands for an object of the runtime: a typed wrapper round a
/// handle, or the handle itself.
pub trait JClassInstance {
    /// A handle on the object that the value stands for.
    fn get_jobject(&self) -> JObject;
}

impl JClassInstance for JObject {
    fn get_jobject(&self) -> (obj: JObject)
        ensures
            obj@ == self@,
    {
        self.clone()
    }
}

/// The handle with this reference and this class.
pub open spec fn unview(view: ObjectView) -> JObject {
    JObject { ptr: view.ptr, class: Arc::new(JClass { ptr: view.class }) }
}

/// A run that gives a handle, against the typed result that a descriptor
/// hands out: the run ends at `end`, a failure passes through, and a handle is
/// converted by `T::from`. What the conversion gives is stated where `T`
/// declares it.
pub open spec fn converted<T: From<JObject>>(
    run: Option<Run<ObjectView>>,
    r: Result<T, JniError>,
    end: int,
) -> bool {
    &&& run is Some
    &&& run->0.end == end
    &&& match run->0.value {
        Ok(view) => r is Ok && (T::obeys_from_spec() ==> r->Ok_0 == T::from_spec(unview(view))),
        Err(e) => r == Err::<T, JniError>(e),
    }
}

/// The reading of a static field that holds an object, of the class of this name.
pub open spec fn static_field_get_run(
    class_sig: Seq<char>,
    name: Seq<char>,
    sig: Seq<char>,
    t: Seq<Exchange>,
    i: int,
) -> Option<Run<ObjectView>> {
    and_then(
        find_class_run(class_sig, t, i),
        |class: u64, j: int| wrapped(static_get_run(Kind::Object, class, name, sig, t, j), t),
    )
}

/// The writing of a static field that holds an object, of the class of this name.
pub open spec fn static_field_set_run(
    class_sig: Seq<char>,
    name: Seq<char>,
    sig: Seq<char>,
    value: u64,
    t: Seq<Exchange>,
    i: int,
) -> Option<Run<()>> {
    and_then(
        find_class_run(class_sig, t, i),
        |class: u64, j: int| static_set_run(Kind::Object, class, name, sig, value, t, j),
    )
}

/// The call of a static method that returns an object, of the class of this name.
pub open spec fn static_method_run(
    class_sig: Seq<char>,
    name: Seq<char>,
    sig: Seq<char>,
    args: Seq<Arg>,
    t: Seq<Exchange>,
    i: int,
) -> Option<Run<ObjectView>> {
    and_then(
        find_class_run(class_sig, t, i),
        |class: u64, j: int| wrapped(static_call_run(Kind::Object, class, name, sig, args, t, j), t),
    )
}

/// Converts a handle that an operation gave, and passes a failure through.
fn convert<T: From<JObject>>(found: Result<JObject, JniError>) -> (r: Result<T, JniError>)
    ensures
        match found {
            Ok(obj) => r is Ok && (T::obeys_from_spec() ==> r->Ok_0 == T::from_spec(unview(obj@))),
            Err(e) => r == Err::<T, JniError>(e),
        },
{
    match found {
        Ok(obj) => {
            assert(obj == unview(obj@));
            Ok(T::from(obj))
        },
        Err(e) => Err(e),
    }
}

/// A field of one object that holds an object, bound once and used many times.
pub struct AbstractJField<'a, T> {
    pub parent: &'a JObject,
    pub name: String,
    pub sig: String,
    pub return_type: PhantomData<T>,
}

/// A method of one object that returns an object, with its arguments bound.
pub struct AbstractJMethod<'a, T> {
    pub parent: &'a JObject,
    pub name: String,
    pub sig: String,
    pub return_type: PhantomData<T>,
    pub args: Vec<JValue<'a>>,
}

/// A static field that holds an object. Its class is named, and looked up at every use.
pub struct AbstractStaticJField<T> {
    pub class_sig: String,
    pub name: String,
    pub sig: String,
    pub return_type: PhantomData<T>,
}

/// A static method that returns an object, with its arguments bound. Its
/// class is named, and looked up at every use.
pub struct AbstractStaticJMethod<'a, T> {
    pub class_sig: String,
    pub name: String,
    pub sig: String,
    pub return_type: PhantomData<T>,
    pub args: Vec<JValue<'a>>,
}

impl<'a, T: From<JObject>> AbstractStaticJMethod<'a, T> {
    pub fn new(class_sig: String, name: String, sig: String, args: Vec<JValue<'a>>) -> (method: Self)
        ensures
            method.class_sig == class_sig,
            method.name == name,
            method.sig == sig,
            method.args == args,
    {
        Self { class_sig, name, sig, args, return_type: PhantomData }
    }

    /// Looks the class up and calls the method on it.
    pub fn call<C: CallTable>(&self, env: &mut Jenv<C>) -> (r: Result<T, JniError>)
        ensures
            old(env).trace().is_prefix_of(final(env).trace()),
            converted(
                static_method_run(
                    self.class_sig@,
                    self.name@,
                    self.sig@,
                    marshalled(self.args@),
                    final(env).trace(),
                    old(env).mark(),
                ),
                r,
                final(env).mark(),
            ),
    {
        let ghost start = env.mark();
        let class = match env.find_class(self.class_sig.as_str()) {
            Ok(class) => class,
            Err(e) => {
                return Err(e);
            },
        };
        let ghost found = env.trace();
        let obj = class.call_static_object_method(
            env,
            self.name.as_str(),
            self.sig.as_str(),
            &self.args,
        );
        proof {
            lemma_find_class_run(self.class_sig@, found, env.trace(), start);
        }
        convert(obj)
    }
}

impl<T: From<JObject> + JClassInstance> AbstractStaticJField<T> {
    pub fn new(class_sig: String, name: String, sig: String) -> (field: Self)
        ensures
            field.class_sig == class_sig,
            field.name == name,
            field.sig == sig,
    {
        Self { class_sig, name, sig, return_type: PhantomData }
    }

    /// Looks the class up and reads the field.
    pub fn get<C: CallTable>(&self, env: &mut Jenv<C>) -> (r: Result<T, JniError>)
        ensures
            old(env).trace().is_prefix_of(final(env).trace()),
            converted(
                static_field_get_run(
                    self.class_sig@,
                    self.name@,
                    self.sig@,
                    final(env).trace(),
                    old(env).mark(),
                ),
                r,
                final(env).mark(),
            ),
    {
        let ghost start = env.mark();
        let class = match env.find_class(self.class_sig.as_str()) {
            Ok(class) => class,
            Err(e) => {
                return Err(e);
            },
        };
        let ghost found = env.trace();
        let obj = class.get_static_object_field(env, self.name.as_str(), self.sig.as_str());
        proof {
            lemma_find_class_run(self.class_sig@, found, env.trace(), start);
        }
        convert(obj)
    }

    /// Looks the class up and makes the field refer to the object of `obj`.
    pub fn set_jobject<C: CallTable>(&self, env: &mut Jenv<C>, obj: &JObject) -> (r: Result<
        (),
        JniError,
    >)
        ensures
            old(env).trace().is_prefix_of(final(env).trace()),
            static_field_set_run(
                self.class_sig@,
                self.name@,
                self.sig@,
                obj.ptr,
                final(env).trace(),
                old(env).mark(),
            ) == Some(Run { value: r, end: final(env).mark() }),
    {
        let ghost start = env.mark();
        let class = match env.find_class(self.class_sig.as_str()) {
            Ok(class) => class,
            Err(e) => {
                return Err(e);
            },
        };
        let ghost found = env.trace();
        let r = class.set_static_object_field(env, self.name.as_str(), self.sig.as_str(), obj);
        proof {
            lemma_find_class_run(self.class_sig@, found, env.trace(), start);
        }
        r
    }

    /// Looks the class up and makes the field refer to the object that
    /// `new_value` stands for: the one of the handle that it gives.
    pub fn set<C: CallTable>(&self, env: &mut Jenv<C>, new_value: T) -> (r: Result<(), JniError>)
        ensures
            old(env).trace().is_prefix_of(final(env).trace()),
            exists|ptr: u64| #[trigger]
                static_field_set_run(
                    self.class_sig@,
                    self.name@,
                    self.sig@,
                    ptr,
                    final(env).trace(),
                    old(env).mark(),
                ) == Some(Run { value: r, end: final(env).mark() }),
    {
        let obj = new_value.get_jobject();
        self.set_jobject(env, &obj)
    }
}

impl<'a, T: From<JObject> + JClassInstance> AbstractJField<'a, T> {
    pub fn new(parent: &'a JObject, name: String, sig: String) -> (field: Self)
        ensures
            field.parent == parent,
            field.name == name,
            field.sig == sig,
    {
        Self { parent, name, sig, return_type: PhantomData }
    }

    /// Reads the field through the object's handle.
    pub fn get<C: CallTable>(&self, env: &mut Jenv<C>) -> (r: Result<T, JniError>)
        ensures
            old(env).trace().is_prefix_of(final(env).trace()),
            converted(
                get_object_run(
                    self.parent@,
                    self.name@,
                    self.sig@,
                    final(env).trace(),
                    old(env).mark(),
                ),
                r,
                final(env).mark(),
            ),
    {
        convert(self.parent.get_field_object(env, self.name.as_str(), self.sig.as_str()))
    }

    /// Makes the field refer to the object of `obj`.
    pub fn set_jobject<C: CallTable>(&self, env: &mut Jenv<C>, obj: &JObject) -> (r: Result<
        (),
        JniError,
    >)
        ensures
            old(env).trace().is_prefix_of(final(env).trace()),
            set_run(
                Kind::Object,
                self.parent@,
                self.name@,
                self.sig@,
                obj.ptr,
                final(env).trace(),
                old(env).mark(),
            ) == Some(Run { value: r, end: final(env).mark() }),
    {
        self.parent.set_field_object(env, self.name.as_str(), self.sig.as_str(), obj)
    }

    /// Makes the field refer to the object that `new_value` stands for: the
    /// one of the handle that it gives.
    pub fn set<C: CallTable>(&self, env: &mut Jenv<C>, new_value: T) -> (r: Result<(), JniError>)
        ensures
            old(env).trace().is_prefix_of(final(env).trace()),
            exists|ptr: u64| #[trigger]
                set_run(
                    Kind::Object,
                    self.parent@,
                    self.name@,
                    self.sig@,
                    ptr,
                    final(env).trace(),
                    old(env).mark(),
                ) == Some(Run { value: r, end: final(env).mark() }),
    {
        let obj = new_value.get_jobject();
        self.set_jobject(env, &obj)
    }
}

impl<'a, T: From<JObject> + JClassInstance> AbstractJMethod<'a, T> {
    pub fn new(parent: &'a JObject, name: String, sig: String, args: Vec<JValue<'a>>) -> (method:
        Self)
        ensures
            method.parent == parent,
            method.name == name,
            method.sig == sig,
            method.args == args,
    {
        Self { parent, name, sig, args, return_type: PhantomData }
    }

    /// Calls the method through the object's handle.
    pub fn call<C: CallTable>(&self, env: &mut Jenv<C>) -> (r: Result<T, JniError>)
        ensures
            old(env).trace().is_prefix_of(final(env).trace()),
            converted(
                call_object_run(
                    self.parent@,
                    self.name@,
                    self.sig@,
                    marshalled(self.args@),
                    final(env).trace(),
                    old(env).mark(),
                ),
                r,
                final(env).mark(),
            ),
    {
        convert(
            self.parent.call_object_method(env, self.name.as_str(), self.sig.as_str(), &self.args),
        )
    }
}

} // verus!
