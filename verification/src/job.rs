//! Handles for asynchronous operations.
//!
//! A `Job` pairs an operation identifier with the two query functions
//! the owner supplied: one that polls the status and one that blocks
//! until completion.  Both must accept any identifier; the job calls
//! them with its own.

use vstd::prelude::*;

use crate::common::MaaStatus;
use crate::define::{spec_status_of_code, Status};

verus! {

/// A queryable handle for one asynchronous operation.
pub struct Job<S, W> where S: Fn(i64) -> MaaStatus, W: Fn(i64) -> MaaStatus {
    id: i64,
    status_fn: S,
    wait_fn: W,
}

#[verifier::type_invariant]
spec fn job_inv<S, W>(job: Job<S, W>) -> bool where
    S: Fn(i64) -> MaaStatus,
    W: Fn(i64) -> MaaStatus,
{
    &&& (forall|x: i64| #[trigger] job.status_fn.requires((x,)))
    &&& (forall|x: i64| #[trigger] job.wait_fn.requires((x,)))
}

impl<S, W> Job<S, W> where S: Fn(i64) -> MaaStatus, W: Fn(i64) -> MaaStatus {
    /// A job from an identifier and its two query functions, which
    /// must accept any identifier.
    pub fn new(id: i64, status_fn: S, wait_fn: W) -> (r: Self)
        requires
            forall|x: i64| #[trigger] status_fn.requires((x,)),
            forall|x: i64| #[trigger] wait_fn.requires((x,)),
        ensures
            r.id_spec() == id,
            r.status_fn_spec() == status_fn,
            r.wait_fn_spec() == wait_fn,
    {
        Self { id, status_fn, wait_fn }
    }

    /// The identifier this job queries.
    pub closed spec fn id_spec(&self) -> i64 {
        self.id
    }

    /// The operation's identifier.
    pub fn id(&self) -> (r: i64)
        ensures
            r == self.id_spec(),
    {
        self.id
    }

    /// Poll the operation's status once.
    pub fn status(&self) -> (r: Status)
        ensures
            exists|m: MaaStatus|
                self.status_fn_spec().ensures((self.id_spec(),), m) && r
                    == spec_status_of_code(m.0),
    {
        proof {
            use_type_invariant(self);
        }
        let m = (self.status_fn)(self.id);
        Status::from_code(m.0)
    }

    /// The status query function, for stating what `status` returned.
    pub closed spec fn status_fn_spec(&self) -> S {
        self.status_fn
    }

    /// The completion wait function, for stating what `wait` returned.
    pub closed spec fn wait_fn_spec(&self) -> W {
        self.wait_fn
    }

    /// Block until the operation completes, and report how it ended.
    pub fn wait(&self) -> (r: Status)
        ensures
            exists|m: MaaStatus|
                self.wait_fn_spec().ensures((self.id_spec(),), m) && r
                    == spec_status_of_code(m.0),
    {
        proof {
            use_type_invariant(self);
        }
        let m = (self.wait_fn)(self.id);
        Status::from_code(m.0)
    }

    /// Whether the operation reached a terminal state.
    pub fn done(&self) -> (r: bool)
        ensures
            exists|m: MaaStatus|
                self.status_fn_spec().ensures((self.id_spec(),), m) && r == (
                spec_status_of_code(m.0) == Status::Succeeded || spec_status_of_code(m.0)
                    == Status::Failed),
    {
        let s = self.status();
        s.done()
    }

    /// Whether the operation succeeded.
    pub fn succeeded(&self) -> (r: bool)
        ensures
            exists|m: MaaStatus|
                self.status_fn_spec().ensures((self.id_spec(),), m) && r == (
                spec_status_of_code(m.0) == Status::Succeeded),
    {
        let s = self.status();
        s.succeeded()
    }

    /// Whether the operation failed.
    pub fn failed(&self) -> (r: bool)
        ensures
            exists|m: MaaStatus|
                self.status_fn_spec().ensures((self.id_spec(),), m) && r == (
                spec_status_of_code(m.0) == Status::Failed),
    {
        let s = self.status();
        s.failed()
    }

    /// Whether the operation has not started yet.
    pub fn pending(&self) -> (r: bool)
        ensures
            exists|m: MaaStatus|
                self.status_fn_spec().ensures((self.id_spec(),), m) && r == (
                spec_status_of_code(m.0) == Status::Pending),
    {
        let s = self.status();
        s.pending()
    }

    /// Whether the operation is in progress.
    pub fn running(&self) -> (r: bool)
        ensures
            exists|m: MaaStatus|
                self.status_fn_spec().ensures((self.id_spec(),), m) && r == (
                spec_status_of_code(m.0) == Status::Running),
    {
        let s = self.status();
        s.running()
    }
}

} // verus!
