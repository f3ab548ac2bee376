//! The worker-pool dispatcher: a fixed set of workers, each owning one
//! store connection, draining a shared inbound channel of typed operations
//! and delivering each result to the pending call that awaits it.
//!
//! The pool is a state machine driven from outside: `submit` enqueues an
//! operation and opens a pending call, `step_worker` makes one worker take
//! the channel's front entry or finish the operation it holds, and
//! `take_result` delivers a finished result to its caller. Operations
//! queue — they are never rejected or dropped — and a worker is `Idle`
//! between operations and `Executing` exactly one at a time.

use vstd::prelude::*;

use crate::executor::{DbExecutor, op_decided, op_rel};
use crate::model::MovieModel;
use crate::ops::{OpResult, Operation, result_matches};
use crate::store::Store;
use crate::table::unique_ids;
use vstd::pervasive::VecAdditionalExecFns;

verus! {

/// What a pending call has come to: still waiting, finished with a result
/// not yet picked up, or delivered and destroyed.
pub ghost enum Phase {
    Pending,
    Ready(OpResult),
    Delivered,
}

/// The lifecycle of one submitted call, as stored.
enum CallState {
    Pending,
    Ready(OpResult),
    Delivered,
}

/// One pending call's record: its lifecycle state and, for the contracts,
/// the operation that was submitted under it.
struct Call {
    state: CallState,
    op: Ghost<Operation>,
}

/// One entry of the shared inbound channel.
struct QueueEntry {
    call: usize,
    op: Operation,
}

/// One worker slot: idle, or executing the operation of one call.
enum WorkerState {
    Idle,
    Executing(usize, Operation),
}

/// The dispatcher: the shared store reached through each worker's private
/// connection, the worker slots, the shared inbound channel, and the
/// records of every call submitted so far.
pub struct Dispatcher {
    db: DbExecutor,
    workers: Vec<WorkerState>,
    queue: Vec<QueueEntry>,
    results: Vec<Call>,
}

/// How many of these call records are still pending.
spec fn pending_count(rs: Seq<Call>) -> nat
    decreases rs.len(),
{
    if rs.len() == 0 {
        0
    } else {
        pending_count(rs.drop_last()) + (if rs.last().state is Pending {
            1nat
        } else {
            0nat
        })
    }
}

proof fn lemma_pending_count_update(rs: Seq<Call>, i: int, v: Call)
    requires
        0 <= i < rs.len(),
        rs[i].state is Pending,
        !(v.state is Pending),
    ensures
        pending_count(rs.update(i, v)) + 1 == pending_count(rs),
    decreases rs.len(),
{
    let out = rs.update(i, v);
    if i == rs.len() - 1 {
        assert(out.drop_last() =~= rs.drop_last());
        assert(out.last() == v);
    } else {
        assert(out.drop_last() =~= rs.drop_last().update(i, v));
        assert(out.last() == rs.last());
        lemma_pending_count_update(rs.drop_last(), i, v);
    }
}

impl Dispatcher {
    /// The table behind every worker's connection.
    pub closed spec fn store(self) -> Seq<MovieModel> {
        self.db.0@
    }

    /// The pool's fixed size.
    pub closed spec fn n_workers(self) -> int {
        self.workers@.len() as int
    }

    /// How many calls have been submitted over the pool's lifetime.
    pub closed spec fn n_calls(self) -> int {
        self.results@.len() as int
    }

    /// The calls waiting in the inbound channel, front first.
    pub closed spec fn queue_calls(self) -> Seq<int> {
        Seq::new(self.queue@.len(), |i: int| self.queue@[i].call as int)
    }

    /// The operation submitted under a call.
    pub closed spec fn call_op(self, c: int) -> Operation {
        self.results@[c].op@
    }

    /// Where a call stands: pending, ready with its result, or delivered.
    pub closed spec fn call_phase(self, c: int) -> Phase {
        match self.results@[c].state {
            CallState::Pending => Phase::Pending,
            CallState::Ready(r) => Phase::Ready(r),
            CallState::Delivered => Phase::Delivered,
        }
    }

    /// The call whose operation a worker is executing, if any.
    pub closed spec fn worker_call(self, w: int) -> Option<int> {
        match self.workers@[w] {
            WorkerState::Idle => None,
            WorkerState::Executing(c, _) => Some(c as int),
        }
    }

    /// How many submitted calls still await a result.
    pub closed spec fn pending_total(self) -> nat {
        pending_count(self.results@)
    }

    /// Nothing queued and every worker idle.
    pub open spec fn quiescent(self) -> bool {
        &&& self.queue_calls().len() == 0
        &&& forall|w: int| 0 <= w < self.n_workers() ==> self.worker_call(w) is None
    }

    /// A call the dispatcher is answerable for: it is queued, or a worker
    /// holds it, or its result is already in. Every call that `submit`
    /// opened is accounted for this way until it is delivered — no call is
    /// ever dropped.
    pub open spec fn call_tracked(self, c: int) -> bool {
        ||| self.queue_calls().contains(c)
        ||| exists|w: int| 0 <= w < self.n_workers() && self.worker_call(w) == Some(c)
        ||| !(self.call_phase(c) is Pending)
    }

    /// The dispatcher's correlation invariant: queued and executing calls
    /// are pending records of the operations they carry, no call is held
    /// in two places, and a ready result has its operation's shape.
    #[verifier::type_invariant]
    spec fn inv(self) -> bool {
        &&& self.workers@.len() >= 1
        &&& forall|i: int|
            0 <= i < self.queue@.len() ==> {
                &&& (#[trigger] self.queue@[i]).call < self.results@.len()
                &&& self.results@[self.queue@[i].call as int].state is Pending
                &&& self.results@[self.queue@[i].call as int].op@ == self.queue@[i].op
            }
        &&& forall|w: int|
            0 <= w < self.workers@.len() ==> match #[trigger] self.workers@[w] {
                WorkerState::Idle => true,
                WorkerState::Executing(c, op) => {
                    &&& c < self.results@.len()
                    &&& self.results@[c as int].state is Pending
                    &&& self.results@[c as int].op@ == op
                },
            }
        &&& forall|i: int, j: int|
            0 <= i < j < self.queue@.len() ==> (#[trigger] self.queue@[i]).call != (
            #[trigger] self.queue@[j]).call
        &&& forall|w1: int, w2: int|
            0 <= w1 < w2 < self.workers@.len() ==> match (
                #[trigger] self.workers@[w1],
                #[trigger] self.workers@[w2],
            ) {
                (WorkerState::Executing(c1, _), WorkerState::Executing(c2, _)) => c1 != c2,
                _ => true,
            }
        &&& forall|i: int, w: int|
            0 <= i < self.queue@.len() && 0 <= w < self.workers@.len() ==> match #[trigger] self.workers@[w] {
                WorkerState::Idle => true,
                WorkerState::Executing(c, _) => (#[trigger] self.queue@[i]).call != c,
            }
        &&& forall|c: int|
            0 <= c < self.results@.len() ==> match (#[trigger] self.results@[c]).state {
                CallState::Ready(r) => result_matches(self.results@[c].op@, r),
                _ => true,
            }
    }

    /// A pool of `size` workers over an empty table, nothing submitted.
    pub fn new(size: usize) -> (d: Dispatcher)
        requires
            size >= 1,
        ensures
            d.store() == Seq::<MovieModel>::empty(),
            unique_ids(d.store()),
            d.n_workers() == size,
            d.n_calls() == 0,
            d.quiescent(),
    {
        let mut workers: Vec<WorkerState> = Vec::new();
        let mut i: usize = 0;
        while i < size
            invariant
                i <= size,
                workers@.len() == i,
                forall|j: int| 0 <= j < i ==> workers@[j] is Idle,
            decreases size - i,
        {
            workers.push(WorkerState::Idle);
            i = i + 1;
        }
        let d = Dispatcher { db: DbExecutor(Store::new()), workers, queue: Vec::new(), results: Vec::new() };
        proof {
            assert(d.queue_calls() =~= Seq::<int>::empty());
        }
        d
    }

    /// Opens a pending call for one operation and enqueues it on the
    /// shared channel. Submission never rejects and never blocks: beyond
    /// pool capacity, operations simply queue.
    pub fn submit(&mut self, op: Operation) -> (call: usize)
        ensures
            call as int == old(self).n_calls(),
            final(self).n_calls() == old(self).n_calls() + 1,
            final(self).n_workers() == old(self).n_workers(),
            final(self).n_workers() >= 1,
            final(self).store() == old(self).store(),
            unique_ids(final(self).store()),
            final(self).queue_calls() == old(self).queue_calls().push(call as int),
            final(self).call_op(call as int) == op,
            final(self).call_phase(call as int) is Pending,
            final(self).call_tracked(call as int),
            forall|w: int|
                0 <= w < old(self).n_workers() ==> final(self).worker_call(w) == old(self).worker_call(w),
            forall|c: int|
                0 <= c < old(self).n_calls() ==> final(self).call_op(c) == old(self).call_op(c)
                    && final(self).call_phase(c) == old(self).call_phase(c),
    {
        proof {
            use_type_invariant(&*self);
            use_type_invariant(&self.db.0);
        }
        let mut tmp = Dispatcher::swap_target();
        core::mem::swap(self, &mut tmp);
        let Dispatcher { db, workers, mut queue, mut results } = tmp;
        let call = results.len();
        results.push(Call { state: CallState::Pending, op: Ghost(op) });
        queue.push(QueueEntry { call, op });
        let d = Dispatcher { db, workers, queue, results };
        proof {
            assert(d.queue_calls() =~= old(self).queue_calls().push(call as int));
        }
        *self = d;
        proof {
            assert(final(self).queue_calls()[old(self).queue_calls().len() as int] == call as int);
            assert(final(self).queue_calls().contains(call as int));
        }
        call
    }

    /// One worker transition. An idle worker takes the channel's front
    /// entry if there is one and starts executing it; a worker that holds
    /// an operation finishes it against the shared table — the result and
    /// the new table stand in `op_rel` to the old — and delivers the
    /// result to the call's record, returning to idle. Everything else is
    /// untouched, and `progressed` reports whether anything happened.
    pub fn step_worker(&mut self, w: usize) -> (progressed: bool)
        requires
            w < old(self).n_workers(),
        ensures
            final(self).n_workers() == old(self).n_workers(),
            final(self).n_calls() == old(self).n_calls(),
            unique_ids(final(self).store()),
            forall|c: int|
                0 <= c < old(self).n_calls() ==> final(self).call_op(c) == old(self).call_op(c),
            forall|c: int|
                0 <= c < old(self).n_calls() && old(self).call_tracked(c) ==> final(self).call_tracked(c),
            forall|w2: int|
                0 <= w2 < old(self).n_workers() && w2 != w ==> final(self).worker_call(w2) == old(self).worker_call(w2),
            match old(self).worker_call(w as int) {
                Option::None => {
                    if old(self).queue_calls().len() == 0 {
                        *final(self) == *old(self) && !progressed
                    } else {
                        &&& progressed
                        &&& final(self).worker_call(w as int) == Some(old(self).queue_calls()[0])
                        &&& final(self).queue_calls() == old(self).queue_calls().drop_first()
                        &&& final(self).store() == old(self).store()
                        &&& final(self).pending_total() == old(self).pending_total()
                        &&& forall|c: int|
                            0 <= c < old(self).n_calls() ==> final(self).call_phase(c) == old(self).call_phase(c)
                    }
                },
                Option::Some(c) => {
                    &&& progressed
                    &&& old(self).call_phase(c) is Pending
                    &&& final(self).worker_call(w as int) is None
                    &&& final(self).queue_calls() == old(self).queue_calls()
                    &&& final(self).pending_total() + 1 == old(self).pending_total()
                    &&& (final(self).call_phase(c) matches Phase::Ready(r) && op_rel(
                        old(self).store(),
                        old(self).call_op(c),
                        final(self).store(),
                        r,
                    ) && op_decided(old(self).store(), old(self).call_op(c), r))
                    &&& forall|c2: int|
                        0 <= c2 < old(self).n_calls() && c2 != c ==> final(self).call_phase(c2)
                            == old(self).call_phase(c2)
                },
            },
    {
        proof {
            use_type_invariant(&*self);
            use_type_invariant(&self.db.0);
        }
        let mut tmp = Dispatcher::swap_target();
        core::mem::swap(self, &mut tmp);
        let Dispatcher { mut db, mut workers, mut queue, mut results } = tmp;
        let progressed: bool;
        let finished: Option<(usize, OpResult)> = match &workers[w] {
            WorkerState::Executing(c, op) => {
                let r = db.handle(op);
                Some((*c, r))
            },
            WorkerState::Idle => None,
        };
        match finished {
            Some((c, r)) => {
                workers.set(w, WorkerState::Idle);
                let ghost gop = results@[c as int].op@;
                proof {
                    lemma_pending_count_update(
                        results@,
                        c as int,
                        Call { state: CallState::Ready(r), op: Ghost(gop) },
                    );
                }
                results.set(c, Call { state: CallState::Ready(r), op: Ghost(gop) });
                progressed = true;
            },
            None => {
                if queue.len() > 0 {
                    let entry = queue.remove(0);
                    workers.set(w, WorkerState::Executing(entry.call, entry.op));
                    progressed = true;
                } else {
                    progressed = false;
                }
            },
        }
        let d = Dispatcher { db, workers, queue, results };
        proof {
            assert(d.queue_calls() =~= Seq::new(d.queue@.len(), |i: int| d.queue@[i].call as int));
        }
        *self = d;
        proof {
            match old(self).worker_call(w as int) {
                Option::None => {
                    if old(self).queue_calls().len() > 0 {
                        assert(final(self).queue_calls() =~= old(self).queue_calls().drop_first());
                    }
                },
                Option::Some(c) => {
                    assert(final(self).queue_calls() =~= old(self).queue_calls());
                },
            }
            assert forall|c: int|
                0 <= c < old(self).n_calls() && old(self).call_tracked(c) implies final(self).call_tracked(c) by {
                let q0 = old(self).queue_calls();
                if !(old(self).call_phase(c) is Pending) {
                    match old(self).worker_call(w as int) {
                        Option::Some(c_done) => {
                            assert(old(self).call_phase(c_done) is Pending);
                            assert(c != c_done);
                            assert(final(self).call_phase(c) == old(self).call_phase(c));
                        },
                        Option::None => {
                            assert(final(self).call_phase(c) == old(self).call_phase(c));
                        },
                    }
                } else if q0.contains(c) {
                    let i = choose|i: int| 0 <= i < q0.len() && q0[i] == c;
                    match old(self).worker_call(w as int) {
                        Option::Some(_) => {
                            assert(final(self).queue_calls()[i] == c);
                            assert(final(self).queue_calls().contains(c));
                        },
                        Option::None => {
                            if i == 0 {
                                assert(final(self).worker_call(w as int) == Some(c));
                            } else {
                                assert(final(self).queue_calls()[i - 1] == c);
                                assert(final(self).queue_calls().contains(c));
                            }
                        },
                    }
                } else {
                    let w2 = choose|w2: int|
                        0 <= w2 < old(self).n_workers() && old(self).worker_call(w2) == Some(c);
                    if w2 == w as int {
                        assert(!(final(self).call_phase(c) is Pending));
                    } else {
                        assert(final(self).worker_call(w2) == Some(c));
                    }
                }
            }
        }
        progressed
    }

    /// Delivers the result of a finished call to its caller, destroying
    /// the pending-call record. Returns nothing if the call is unknown,
    /// still pending, or already delivered, leaving everything untouched.
    pub fn take_result(&mut self, call: usize) -> (r: Option<OpResult>)
        ensures
            final(self).n_workers() == old(self).n_workers(),
            final(self).n_calls() == old(self).n_calls(),
            final(self).store() == old(self).store(),
            unique_ids(final(self).store()),
            final(self).queue_calls() == old(self).queue_calls(),
            forall|w: int|
                0 <= w < old(self).n_workers() ==> final(self).worker_call(w) == old(self).worker_call(w),
            forall|c: int|
                0 <= c < old(self).n_calls() ==> final(self).call_op(c) == old(self).call_op(c),
            match r {
                Option::Some(res) => {
                    &&& 0 <= (call as int) < old(self).n_calls()
                    &&& old(self).call_phase(call as int) == Phase::Ready(res)
                    &&& final(self).call_phase(call as int) is Delivered
                    &&& result_matches(old(self).call_op(call as int), res)
                    &&& forall|c: int|
                        0 <= c < old(self).n_calls() && c != call as int ==> final(self).call_phase(
                            c,
                        ) == old(self).call_phase(c)
                },
                Option::None => *final(self) == *old(self) && !(old(self).call_phase(call as int) matches Phase::Ready(_)
                    && 0 <= (call as int) < old(self).n_calls()),
            },
    {
        proof {
            use_type_invariant(&*self);
            use_type_invariant(&self.db.0);
        }
        if call >= self.results.len() {
            return None;
        }
        let is_ready = match &self.results[call].state {
            CallState::Ready(_) => true,
            _ => false,
        };
        if !is_ready {
            return None;
        }
        let mut tmp = Dispatcher::swap_target();
        core::mem::swap(self, &mut tmp);
        let Dispatcher { db, workers, queue, mut results } = tmp;
        let ghost gop = results@[call as int].op@;
        let mut slot = Call { state: CallState::Delivered, op: Ghost(gop) };
        results.set_and_swap(call, &mut slot);
        let r = match slot.state {
            CallState::Ready(res) => Some(res),
            _ => None,
        };
        *self = Dispatcher { db, workers, queue, results };
        r
    }

    /// Runs workers until the pool is quiescent: every queued or held
    /// operation is executed and its result made ready. No call is lost —
    /// each one the pool was answerable for ends ready or delivered — and
    /// results already in are untouched. Quiescence is reached after
    /// finitely many worker transitions: operations beyond pool capacity
    /// wait in the channel, none is rejected.
    pub fn run_pending(&mut self)
        ensures
            final(self).n_workers() == old(self).n_workers(),
            final(self).n_workers() >= 1,
            final(self).n_calls() == old(self).n_calls(),
            unique_ids(final(self).store()),
            final(self).quiescent(),
            forall|c: int|
                0 <= c < old(self).n_calls() ==> final(self).call_op(c) == old(self).call_op(c),
            forall|c: int|
                0 <= c < old(self).n_calls() && !(old(self).call_phase(c) is Pending) ==> final(self).call_phase(c) == old(self).call_phase(c),
            forall|c: int|
                0 <= c < old(self).n_calls() && old(self).call_tracked(c) ==> !(final(self).call_phase(c) is Pending),
            forall|c: int|
                0 <= c < old(self).n_calls() && old(self).call_phase(c) is Pending && old(self).call_tracked(c) ==> final(self).call_phase(c) is Ready,
            old(self).quiescent() ==> *final(self) == *old(self),
            old(self).quiescent() ==> final(self).store() == old(self).store(),
    {
        proof {
            use_type_invariant(&*self);
        }
        loop
            invariant
                self.n_workers() >= 1,
                self.n_workers() == old(self).n_workers(),
                self.n_calls() == old(self).n_calls(),
                forall|c: int|
                    0 <= c < old(self).n_calls() ==> self.call_op(c) == old(self).call_op(c),
                forall|c: int|
                    0 <= c < old(self).n_calls() && !(old(self).call_phase(c) is Pending)
                        ==> self.call_phase(c) == old(self).call_phase(c),
                forall|c: int|
                    0 <= c < old(self).n_calls() && old(self).call_tracked(c) ==> self.call_tracked(
                        c,
                    ),
                forall|c: int|
                    0 <= c < old(self).n_calls() && old(self).call_phase(c) is Pending ==> (
                    self.call_phase(c) is Pending || self.call_phase(c) is Ready),
                old(self).quiescent() ==> *self == *old(self),
            ensures
                self.quiescent(),
                unique_ids(self.store()),
            decreases self.pending_total(), self.queue_calls().len(),
        {
            if self.quiescent_now() {
                proof {
                    use_type_invariant(&*self);
                    use_type_invariant(&self.db.0);
                }
                break;
            }
            match self.find_executing() {
                Option::Some(w) => {
                    self.step_worker(w);
                },
                Option::None => {
                    self.step_worker(0);
                },
            }
        }
        proof {
            assert forall|c: int|
                0 <= c < old(self).n_calls() && old(self).call_tracked(c) implies !(final(self).call_phase(c) is Pending) by {
                assert(final(self).call_tracked(c));
            }
        }
    }

    /// Whether the pool is quiescent right now.
    fn quiescent_now(&self) -> (b: bool)
        ensures
            b == self.quiescent(),
    {
        proof {
            use_type_invariant(&*self);
        }
        if self.queue.len() > 0 {
            proof {
                assert(self.queue_calls().len() == self.queue@.len());
            }
            return false;
        }
        proof {
            assert(self.queue_calls() =~= Seq::<int>::empty());
        }
        let mut w: usize = 0;
        while w < self.workers.len()
            invariant
                w <= self.workers@.len(),
                forall|j: int| 0 <= j < w ==> self.worker_call(j) is None,
            decreases self.workers@.len() - w,
        {
            match &self.workers[w] {
                WorkerState::Executing(_, _) => {
                    proof {
                        assert(self.worker_call(w as int) is Some);
                    }
                    return false;
                },
                WorkerState::Idle => {},
            }
            w = w + 1;
        }
        true
    }

    /// Some worker that holds an operation, if any does.
    fn find_executing(&self) -> (r: Option<usize>)
        ensures
            match r {
                Option::Some(w) => 0 <= (w as int) < self.n_workers() && self.worker_call(w as int) is Some,
                Option::None => forall|j: int|
                    0 <= j < self.n_workers() ==> self.worker_call(j) is None,
            },
    {
        let mut w: usize = 0;
        while w < self.workers.len()
            invariant
                w <= self.workers@.len(),
                forall|j: int| 0 <= j < w ==> self.worker_call(j) is None,
            decreases self.workers@.len() - w,
        {
            match &self.workers[w] {
                WorkerState::Executing(_, _) => {
                    proof {
                        assert(self.worker_call(w as int) is Some);
                    }
                    return Some(w);
                },
                WorkerState::Idle => {},
            }
            w = w + 1;
        }
        None
    }

    /// Tears the pool down: every worker stops and releases its
    /// connection, undelivered results are discarded, and the table as the
    /// operations left it is handed back. In-flight effects stay: nothing
    /// submitted is rolled back.
    pub fn shutdown(self) -> (db: DbExecutor)
        ensures
            db.0@ == self.store(),
    {
        let Dispatcher { db, workers: _, queue: _, results: _ } = self;
        db
    }

    /// A trivial dispatcher swapped in while a transition takes the real
    /// one apart and rebuilds it.
    fn swap_target() -> (d: Dispatcher) {
        let mut workers: Vec<WorkerState> = Vec::new();
        workers.push(WorkerState::Idle);
        Dispatcher { db: DbExecutor(Store::new()), workers, queue: Vec::new(), results: Vec::new() }
    }
}

} // verus!
