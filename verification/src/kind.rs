use vstd::prelude::*;
use vstd::string::StringExecFns;

verus! {

/// The kinds of value that cross the boundary to the runtime.
#[derive(Clone, Copy, Debug, PartialEq, Eq, Structural)]
pub enum Kind {
    Boolean,
    Byte,
    Char,
    Short,
    Int,
    Long,
    Float,
    Double,
    Object,
    Void,
}

/// Whether a member belongs to an instance or to its class.
#[derive(Clone, Copy, Debug, PartialEq, Eq, Structural)]
pub enum Scope {
    Instance,
    Static,
}

/// What is done with a member.
#[derive(Clone, Copy, Debug, PartialEq, Eq, Structural)]
pub enum Access {
    FieldGet,
    FieldSet,
    MethodCall,
}

/// The two sorts of member that a class has.
#[derive(Clone, Copy, Debug, PartialEq, Eq, Structural)]
pub enum Member {
    Field,
    Method,
}

/// An entry of the runtime's call table.
#[derive(Clone, Copy, Debug, PartialEq, Eq, Structural)]
pub enum Operation {
    FindClass,
    GetSuperclass,
    GetObjectClass,
    NewObjectA,
    ExceptionCheck,
    ExceptionClear,
    GetVersion,
    /// Resolves a name and a signature to a lookup token.
    Lookup(Member, Scope),
    /// Reads a field, writes a field or calls a method of one kind.
    Typed(Access, Scope, Kind),
}

impl Kind {
    /// The kind's part of an operation's name.
    pub open spec fn spec_name(self) -> Seq<char> {
        match self {
            Kind::Boolean => "Boolean"@,
            Kind::Byte => "Byte"@,
            Kind::Char => "Char"@,
            Kind::Short => "Short"@,
            Kind::Int => "Int"@,
            Kind::Long => "Long"@,
            Kind::Float => "Float"@,
            Kind::Double => "Double"@,
            Kind::Object => "Object"@,
            Kind::Void => "Void"@,
        }
    }

    pub fn name(self) -> (r: &'static str)
        ensures
            r@ == self.spec_name(),
    {
        match self {
            Kind::Boolean => "Boolean",
            Kind::Byte => "Byte",
            Kind::Char => "Char",
            Kind::Short => "Short",
            Kind::Int => "Int",
            Kind::Long => "Long",
            Kind::Float => "Float",
            Kind::Double => "Double",
            Kind::Object => "Object",
            Kind::Void => "Void",
        }
    }
}

impl Scope {
    /// The scope's part of an operation's name: nothing for an instance.
    pub open spec fn spec_infix(self) -> Seq<char> {
        match self {
            Scope::Instance => ""@,
            Scope::Static => "Static"@,
        }
    }

    pub fn infix(self) -> (r: &'static str)
        ensures
            r@ == self.spec_infix(),
    {
        match self {
            Scope::Instance => "",
            Scope::Static => "Static",
        }
    }
}

impl Operation {
    /// The table holds a typed operation for every kind, but for `Void` only
    /// the method calls: a field has no such kind.
    pub open spec fn catalogued(self) -> bool {
        match self {
            Operation::Typed(access, _, kind) => kind == Kind::Void ==> access
                == Access::MethodCall,
            _ => true,
        }
    }

    pub fn is_catalogued(self) -> (r: bool)
        ensures
            r == self.catalogued(),
    {
        match self {
            Operation::Typed(access, _, kind) => kind != Kind::Void || access
                == Access::MethodCall,
            _ => true,
        }
    }

    /// The kind of what the operation hands back.
    pub open spec fn spec_result_kind(self) -> Kind {
        match self {
            Operation::FindClass => Kind::Object,
            Operation::GetSuperclass => Kind::Object,
            Operation::GetObjectClass => Kind::Object,
            Operation::NewObjectA => Kind::Object,
            Operation::ExceptionCheck => Kind::Boolean,
            Operation::ExceptionClear => Kind::Void,
            Operation::GetVersion => Kind::Int,
            Operation::Lookup(_, _) => Kind::Object,
            Operation::Typed(Access::FieldSet, _, _) => Kind::Void,
            Operation::Typed(_, _, kind) => kind,
        }
    }

    pub fn result_kind(self) -> (r: Kind)
        ensures
            r == self.spec_result_kind(),
    {
        match self {
            Operation::FindClass => Kind::Object,
            Operation::GetSuperclass => Kind::Object,
            Operation::GetObjectClass => Kind::Object,
            Operation::NewObjectA => Kind::Object,
            Operation::ExceptionCheck => Kind::Boolean,
            Operation::ExceptionClear => Kind::Void,
            Operation::GetVersion => Kind::Int,
            Operation::Lookup(_, _) => Kind::Object,
            Operation::Typed(Access::FieldSet, _, _) => Kind::Void,
            Operation::Typed(_, _, kind) => kind,
        }
    }

    /// The name under which the call table holds the operation.
    pub open spec fn spec_name(self) -> Seq<char> {
        match self {
            Operation::FindClass => "FindClass"@,
            Operation::GetSuperclass => "GetSuperclass"@,
            Operation::GetObjectClass => "GetObjectClass"@,
            Operation::NewObjectA => "NewObjectA"@,
            Operation::ExceptionCheck => "ExceptionCheck"@,
            Operation::ExceptionClear => "ExceptionClear"@,
            Operation::GetVersion => "GetVersion"@,
            Operation::Lookup(Member::Field, scope) => "Get"@ + scope.spec_infix() + "FieldID"@,
            Operation::Lookup(Member::Method, scope) => "Get"@ + scope.spec_infix() + "MethodID"@,
            Operation::Typed(Access::FieldGet, scope, kind) => "Get"@ + scope.spec_infix()
                + kind.spec_name() + "Field"@,
            Operation::Typed(Access::FieldSet, scope, kind) => "Set"@ + scope.spec_infix()
                + kind.spec_name() + "Field"@,
            Operation::Typed(Access::MethodCall, scope, kind) => "Call"@ + scope.spec_infix()
                + kind.spec_name() + "MethodA"@,
        }
    }

    pub fn name(self) -> (r: String)
        ensures
            r@ == self.spec_name(),
    {
        match self {
            Operation::FindClass => String::from_str("FindClass"),
            Operation::GetSuperclass => String::from_str("GetSuperclass"),
            Operation::GetObjectClass => String::from_str("GetObjectClass"),
            Operation::NewObjectA => String::from_str("NewObjectA"),
            Operation::ExceptionCheck => String::from_str("ExceptionCheck"),
            Operation::ExceptionClear => String::from_str("ExceptionClear"),
            Operation::GetVersion => String::from_str("GetVersion"),
            Operation::Lookup(member, scope) => {
                let mut r = String::from_str("Get");
                r.append(scope.infix());
                match member {
                    Member::Field => r.append("FieldID"),
                    Member::Method => r.append("MethodID"),
                }
                r
            },
            Operation::Typed(access, scope, kind) => {
                let mut r = match access {
                    Access::FieldGet => String::from_str("Get"),
                    Access::FieldSet => String::from_str("Set"),
                    Access::MethodCall => String::from_str("Call"),
                };
                r.append(scope.infix());
                r.append(kind.name());
                match access {
                    Access::MethodCall => r.append("MethodA"),
                    _ => r.append("Field"),
                }
                r
            },
        }
    }
}

} // verus!
