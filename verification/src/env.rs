use vstd::prelude::*;
use crate::call::{Call, CallTable, CallView, Exchange};
use crate::class::JClass;
use crate::error::JniError;
use crate::kind::Operation;
use crate::protocol::{Run, checked_run, decoded, find_class_run, unchecked_run};
use crate::slot::{decode_boolean, decode_int, slot_int};

verus! {

/// The connection to the runtime for the thread that attached it. Every call
/// into the runtime goes through it, and it keeps the trace of those calls.
pub struct Jenv<T: CallTable> {
    table: T,
    issued: Ghost<Seq<Exchange>>,
}

impl<T: CallTable> Jenv<T> {
    /// The exchanges made through this environment so far, oldest first.
    pub closed spec fn trace(&self) -> Seq<Exchange> {
        self.issued@
    }

    /// The call table, as the environment holds it.
    pub closed spec fn held(&self) -> T {
        self.table
    }

    /// The position after the last exchange.
    pub open spec fn mark(&self) -> int {
        self.trace().len() as int
    }

    /// The environment for the thread to which the runtime gave `table`.
    /// Nothing has been exchanged yet.
    pub fn new(table: T) -> (env: Self)
        ensures
            env.trace() == Seq::<Exchange>::empty(),
            env.held() == table,
    {
        Jenv { table, issued: Ghost(Seq::empty()) }
    }

    /// A look at the call table.
    pub fn table(&self) -> (table: &T)
        ensures
            *table == self.held(),
    {
        &self.table
    }

    /// Ends the environment and hands the call table back.
    pub fn into_table(self) -> (table: T)
        ensures
            table == self.held(),
    {
        self.table
    }

    /// The unchecked convention: makes the call and hands its reply back.
    pub fn call_unchecked(&mut self, call: &Call) -> (reply: u64)
        requires
            call@.well_formed(),
        ensures
            final(self).trace() == old(self).trace().push(Exchange { call: call@, reply }),
            old(self).trace().is_prefix_of(final(self).trace()),
            unchecked_run(call@, final(self).trace(), old(self).mark()) == Some(
                Run { value: Ok(reply), end: final(self).mark() },
            ),
    {
        let reply = self.table.invoke(call);
        self.issued = Ghost(self.issued@.push(Exchange { call: call@, reply }));
        reply
    }

    /// The checked convention: makes the call, then asks the runtime for its
    /// pending-failure flag, and clears a flag that is set.
    pub fn call_checked(&mut self, call: &Call) -> (r: Result<u64, JniError>)
        requires
            call@.well_formed(),
        ensures
            old(self).trace().is_prefix_of(final(self).trace()),
            checked_run(call@, final(self).trace(), old(self).mark()) == Some(
                Run { value: r, end: final(self).mark() },
            ),
    {
        let reply = self.call_unchecked(call);
        let flag = self.call_unchecked(&Call::plain(Operation::ExceptionCheck, 0));
        if decode_boolean(flag) {
            let _ = self.call_unchecked(&Call::plain(Operation::ExceptionClear, 0));
            Err(JniError::PendingRuntimeFailure)
        } else {
            Ok(reply)
        }
    }

    /// Looks a class up by its fully qualified name, checked. Fails with
    /// `ClassNotFound` where the lookup leaves a failure pending or hands back
    /// the null reference.
    pub fn find_class(&mut self, name: &str) -> (r: Result<JClass, JniError>)
        ensures
            old(self).trace().is_prefix_of(final(self).trace()),
            decoded(
                find_class_run(name@, final(self).trace(), old(self).mark()),
                |ptr: u64| JClass { ptr },
            ) == Some(Run { value: r, end: final(self).mark() }),
    {
        match self.call_checked(&Call::find_class(name)) {
            Ok(ptr) => if ptr != 0 {
                Ok(JClass { ptr })
            } else {
                Err(JniError::ClassNotFound)
            },
            Err(_) => Err(JniError::ClassNotFound),
        }
    }

    /// The version of the runtime.
    pub fn get_version(&mut self) -> (version: i32)
        ensures
            old(self).trace().is_prefix_of(final(self).trace()),
            decoded(
                unchecked_run(
                    CallView::plain(Operation::GetVersion, 0),
                    final(self).trace(),
                    old(self).mark(),
                ),
                |slot: u64| slot_int(slot),
            ) == Some(Run { value: Ok(version), end: final(self).mark() }),
    {
        let reply = self.call_unchecked(&Call::plain(Operation::GetVersion, 0));
        decode_int(reply)
    }
}

} // verus!
