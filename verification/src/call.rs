use vstd::prelude::*;
use crate::kind::{Access, Kind, Member, Operation, Scope};
use crate::slot::Arg;

verus! {

/// One call into the runtime's table, as it is handed over: the operation, the
/// handle it acts on, a lookup token, the names for a lookup and the
/// arguments. A part that the operation does not take is zero or empty.
#[derive(Clone, Copy)]
pub struct Call<'a> {
    pub op: Operation,
    pub target: u64,
    pub member: u64,
    pub name: &'a str,
    pub sig: &'a str,
    pub args: &'a [Arg],
}

/// A call as a plain value.
pub struct CallView {
    pub op: Operation,
    pub target: u64,
    pub member: u64,
    pub name: Seq<char>,
    pub sig: Seq<char>,
    pub args: Seq<Arg>,
}

/// A call that was made and the slot that came back.
pub struct Exchange {
    pub call: CallView,
    pub reply: u64,
}

impl<'a> View for Call<'a> {
    type V = CallView;

    open spec fn view(&self) -> CallView {
        CallView {
            op: self.op,
            target: self.target,
            member: self.member,
            name: self.name@,
            sig: self.sig@,
            args: self.args@,
        }
    }
}

impl Access {
    /// The sort of member that the access is made to.
    pub open spec fn spec_member(self) -> Member {
        match self {
            Access::MethodCall => Member::Method,
            _ => Member::Field,
        }
    }

    pub fn member(self) -> (r: Member)
        ensures
            r == self.spec_member(),
    {
        match self {
            Access::MethodCall => Member::Method,
            _ => Member::Field,
        }
    }
}

/// Whether an access of a kind takes these arguments: the reading of a field
/// takes none, the writing of a field takes the new value, of the field's
/// kind, and a call takes any. No field is of kind `Void`.
pub open spec fn fits(access: Access, kind: Kind, args: Seq<Arg>) -> bool {
    match access {
        Access::FieldGet => kind != Kind::Void && args.len() == 0,
        Access::FieldSet => kind != Kind::Void && args.len() == 1 && args[0].kind == kind,
        Access::MethodCall => true,
    }
}

pub fn is_fitting(access: Access, kind: Kind, args: &[Arg]) -> (r: bool)
    ensures
        r == fits(access, kind, args@),
{
    match access {
        Access::FieldGet => kind != Kind::Void && args.len() == 0,
        Access::FieldSet => kind != Kind::Void && args.len() == 1 && args[0].kind == kind,
        Access::MethodCall => true,
    }
}

impl CallView {
    /// What the call table can rely on in every call that it is handed: the
    /// operation is one of the catalogue, it acts on a handle that is not
    /// null, through a token that is not null, and it has the arguments that
    /// it takes.
    pub open spec fn well_formed(self) -> bool {
        match self.op {
            Operation::Typed(access, _, kind) => {
                &&& self.op.catalogued()
                &&& self.target != 0
                &&& self.member != 0
                &&& fits(access, kind, self.args)
            },
            Operation::NewObjectA => self.target != 0 && self.member != 0,
            Operation::Lookup(_, _) | Operation::GetSuperclass | Operation::GetObjectClass => {
                self.target != 0
            },
            _ => true,
        }
    }

    /// An operation on a handle alone, or on nothing where `target` is zero.
    pub open spec fn plain(op: Operation, target: u64) -> CallView {
        CallView { op, target, member: 0, name: Seq::empty(), sig: Seq::empty(), args: Seq::empty() }
    }

    /// The lookup of a class by its name.
    pub open spec fn find_class(name: Seq<char>) -> CallView {
        CallView {
            op: Operation::FindClass,
            target: 0,
            member: 0,
            name,
            sig: Seq::empty(),
            args: Seq::empty(),
        }
    }

    /// The lookup of a member of `class` by name and signature.
    pub open spec fn lookup(
        member: Member,
        scope: Scope,
        class: u64,
        name: Seq<char>,
        sig: Seq<char>,
    ) -> CallView {
        CallView {
            op: Operation::Lookup(member, scope),
            target: class,
            member: 0,
            name,
            sig,
            args: Seq::empty(),
        }
    }

    /// An access to the member behind `token`, on `target`.
    pub open spec fn typed(
        access: Access,
        scope: Scope,
        kind: Kind,
        target: u64,
        token: u64,
        args: Seq<Arg>,
    ) -> CallView {
        CallView {
            op: Operation::Typed(access, scope, kind),
            target,
            member: token,
            name: Seq::empty(),
            sig: Seq::empty(),
            args,
        }
    }

    /// The construction of an instance of `class` by the constructor behind `token`.
    pub open spec fn construct(class: u64, token: u64, args: Seq<Arg>) -> CallView {
        CallView {
            op: Operation::NewObjectA,
            target: class,
            member: token,
            name: Seq::empty(),
            sig: Seq::empty(),
            args,
        }
    }
}

impl<'a> Call<'a> {
    pub fn is_well_formed(&self) -> (r: bool)
        ensures
            r == self@.well_formed(),
    {
        match self.op {
            Operation::Typed(access, _, kind) => {
                self.target != 0 && self.member != 0 && is_fitting(access, kind, self.args)
            },
            Operation::NewObjectA => self.target != 0 && self.member != 0,
            Operation::Lookup(_, _) | Operation::GetSuperclass | Operation::GetObjectClass => {
                self.target != 0
            },
            _ => true,
        }
    }

    pub fn plain(op: Operation, target: u64) -> (call: Call<'a>)
        ensures
            call@ == CallView::plain(op, target),
    {
        proof {
            reveal_strlit("");
        }
        let call = Call { op, target, member: 0, name: "", sig: "", args: &[] };
        assert(call@.name =~= Seq::empty() && call@.sig =~= Seq::empty());
        assert(call@.args =~= Seq::empty());
        call
    }

    pub fn find_class(name: &'a str) -> (call: Call<'a>)
        ensures
            call@ == CallView::find_class(name@),
    {
        proof {
            reveal_strlit("");
        }
        let call = Call {
            op: Operation::FindClass,
            target: 0,
            member: 0,
            name,
            sig: "",
            args: &[],
        };
        assert(call@.sig =~= Seq::empty() && call@.args =~= Seq::empty());
        call
    }

    pub fn lookup(member: Member, scope: Scope, class: u64, name: &'a str, sig: &'a str) -> (call:
        Call<'a>)
        ensures
            call@ == CallView::lookup(member, scope, class, name@, sig@),
    {
        let call = Call {
            op: Operation::Lookup(member, scope),
            target: class,
            member: 0,
            name,
            sig,
            args: &[],
        };
        assert(call@.args =~= Seq::empty());
        call
    }

    pub fn typed(
        access: Access,
        scope: Scope,
        kind: Kind,
        target: u64,
        token: u64,
        args: &'a [Arg],
    ) -> (call: Call<'a>)
        ensures
            call@ == CallView::typed(access, scope, kind, target, token, args@),
    {
        proof {
            reveal_strlit("");
        }
        let call = Call {
            op: Operation::Typed(access, scope, kind),
            target,
            member: token,
            name: "",
            sig: "",
            args,
        };
        assert(call@.name =~= Seq::empty() && call@.sig =~= Seq::empty());
        call
    }

    pub fn construct(class: u64, token: u64, args: &'a [Arg]) -> (call: Call<'a>)
        ensures
            call@ == CallView::construct(class, token, args@),
    {
        proof {
            reveal_strlit("");
        }
        let call = Call {
            op: Operation::NewObjectA,
            target: class,
            member: token,
            name: "",
            sig: "",
            args,
        };
        assert(call@.name =~= Seq::empty() && call@.sig =~= Seq::empty());
        call
    }
}

/// The empty list of argument slots.
pub fn no_args<'a>() -> (args: &'a [Arg])
    ensures
        args@ == Seq::<Arg>::empty(),
{
    let args: &[Arg] = &[];
    assert(args@ =~= Seq::empty());
    args
}

/// The runtime's call table. Nothing is asked of the slot that an operation
/// hands back: what the library does is stated for every reply.
pub trait CallTable {
    /// Performs the operation and hands back what it returned, as a slot; zero
    /// for an operation that returns nothing.
    fn invoke(&mut self, call: &Call) -> u64
        requires
            call@.well_formed(),
    ;
}

} // verus!
