use vstd::prelude::*;

use crate::protocol::{BusOp, BusOpModel, ops_model};

verus! {

/// The state of a run of bus operations: the operations, how many of them
/// have succeeded, and whether one has failed.
pub struct SessionModel {
    pub ops: Seq<BusOpModel>,
    pub pos: nat,
    pub failed: bool,
}

impl SessionModel {
    /// A run that has not started.
    pub open spec fn fresh(ops: Seq<BusOpModel>) -> SessionModel {
        SessionModel { ops, pos: 0, failed: false }
    }

    pub open spec fn wf(self) -> bool {
        self.pos <= self.ops.len()
    }

    /// No further operation is to be performed.
    pub open spec fn done(self) -> bool {
        self.failed || self.pos >= self.ops.len()
    }

    /// The state after the transport reports on the current operation: on
    /// success the next operation becomes current, on failure the run stops.
    pub open spec fn step(self, ok: bool) -> SessionModel {
        if self.done() {
            self
        } else if ok {
            SessionModel { pos: self.pos + 1, ..self }
        } else {
            SessionModel { failed: true, ..self }
        }
    }

    /// What the run has come to: `None` while operations remain, the error
    /// once one has failed, success once all have succeeded.
    pub open spec fn outcome(self) -> Option<Result<(), ()>> {
        if self.failed {
            Some(Err(()))
        } else if self.pos >= self.ops.len() {
            Some(Ok(()))
        } else {
            None
        }
    }

    /// The operations performed when the transport answers with `results`
    /// in turn, starting from this state.
    pub open spec fn issued(self, results: Seq<bool>) -> Seq<BusOpModel>
        decreases results.len(),
    {
        if self.done() || results.len() == 0 {
            Seq::empty()
        } else {
            seq![self.ops[self.pos as int]] + self.step(results[0]).issued(results.drop_first())
        }
    }

    /// The state reached when the transport answers with `results` in turn.
    pub open spec fn finish(self, results: Seq<bool>) -> SessionModel
        decreases results.len(),
    {
        if self.done() || results.len() == 0 {
            self
        } else {
            self.step(results[0]).finish(results.drop_first())
        }
    }
}

/// A run of bus operations, performed one at a time by the caller. The run
/// stops at the first operation that the transport reports as failed.
pub struct Session {
    ops: Vec<BusOp>,
    pos: usize,
    failed: bool,
}

impl View for Session {
    type V = SessionModel;

    closed spec fn view(&self) -> SessionModel {
        SessionModel { ops: ops_model(self.ops@), pos: self.pos as nat, failed: self.failed }
    }
}

impl Session {
    /// A run of `ops` that has not started.
    pub fn new(ops: Vec<BusOp>) -> (r: Session)
        ensures
            r@ == SessionModel::fresh(ops_model(ops@)),
    {
        Session { ops, pos: 0, failed: false }
    }

    /// The operation to perform next, or `None` once the run is over.
    pub fn next_op(&self) -> (r: Option<&BusOp>)
        requires
            self@.wf(),
        ensures
            r is Some <==> !self@.done(),
            r is Some ==> r->0@ == self@.ops[self@.pos as int],
    {
        if self.failed || self.pos >= self.ops.len() {
            None
        } else {
            Some(&self.ops[self.pos])
        }
    }

    /// Records whether the current operation succeeded. Once the run is
    /// over this changes nothing.
    pub fn report(&mut self, ok: bool)
        requires
            old(self)@.wf(),
        ensures
            final(self)@ == old(self)@.step(ok),
            final(self)@.wf(),
    {
        if self.failed || self.pos >= self.ops.len() {
        } else if ok {
            self.pos = self.pos + 1;
        } else {
            self.failed = true;
        }
    }

    /// `None` while operations remain; otherwise the result of the run.
    pub fn outcome(&self) -> (r: Option<Result<(), ()>>)
        requires
            self@.wf(),
        ensures
            r == self@.outcome(),
    {
        if self.failed {
            Some(Err(()))
        } else if self.pos >= self.ops.len() {
            Some(Ok(()))
        } else {
            None
        }
    }
}

/// When every operation succeeds, each is performed once, in order, and the
/// run ends in success.
pub proof fn lemma_all_succeed(s: SessionModel, results: Seq<bool>)
    requires
        s.wf(),
        !s.failed,
        results.len() >= s.ops.len() - s.pos,
        forall|i: int| 0 <= i < results.len() ==> #[trigger] results[i],
    ensures
        s.issued(results) == s.ops.subrange(s.pos as int, s.ops.len() as int),
        s.finish(results).outcome() == Some(Ok::<(), ()>(())),
    decreases results.len(),
{
    if s.done() {
        assert(s.ops.subrange(s.pos as int, s.ops.len() as int) =~= Seq::empty());
    } else {
        let rest = results.drop_first();
        assert forall|i: int| 0 <= i < rest.len() implies #[trigger] rest[i] by {
            assert(rest[i] == results[i + 1]);
        }
        lemma_all_succeed(s.step(results[0]), rest);
        assert(s.issued(results) =~= s.ops.subrange(s.pos as int, s.ops.len() as int));
    }
}

/// When the operation at offset `n` of the remaining ones is the first to
/// fail, exactly the operations up to and including it are performed, no
/// further one, and the run ends in the error.
pub proof fn lemma_stops_at_first_failure(s: SessionModel, results: Seq<bool>, n: nat)
    requires
        s.wf(),
        !s.failed,
        s.pos + n < s.ops.len(),
        n < results.len(),
        !results[n as int],
        forall|i: int| 0 <= i < n ==> #[trigger] results[i],
    ensures
        s.issued(results) == s.ops.subrange(s.pos as int, (s.pos + n + 1) as int),
        s.finish(results).outcome() == Some(Err::<(), ()>(())),
    decreases n,
{
    if n == 0 {
        let t = s.step(results[0]);
        assert(t.done());
        assert(t.issued(results.drop_first()) =~= Seq::empty());
        assert(t.finish(results.drop_first()) == t);
        assert(s.issued(results) =~= s.ops.subrange(s.pos as int, (s.pos + 1) as int));
    } else {
        let rest = results.drop_first();
        assert(results[0]);
        assert forall|i: int| 0 <= i < n - 1 implies #[trigger] rest[i] by {
            assert(rest[i] == results[i + 1]);
        }
        lemma_stops_at_first_failure(s.step(results[0]), rest, (n - 1) as nat);
        assert(s.issued(results) =~= s.ops.subrange(s.pos as int, (s.pos + n + 1) as int));
    }
}

} // verus!
