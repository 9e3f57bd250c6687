use vstd::prelude::*;

verus! {

/// How long, in seconds, in-flight handlers may run on after cancellation.
pub const SHUTDOWN_GRACE_SECS: u64 = 5;

/// Where one delivered job stands in the pool.
#[derive(PartialEq, Eq, Structural, Clone, Copy, Debug)]
pub enum HandlerStatus {
    /// Its handler is running.
    InFlight,
    /// Its handler succeeded and the job was acknowledged.
    Completed,
    /// Its handler failed and the failure went to the backend for retry.
    Failed,
    /// It outlived the grace period and is left to the backend's redelivery.
    Abandoned,
}

/// What to tell the backend about a handler that has just returned.
#[derive(PartialEq, Eq, Structural, Clone, Copy, Debug)]
pub enum Settlement {
    Acknowledge,
    Retry,
    /// The job was abandoned or settled already: report nothing.
    Stale,
}

/// The consumers' shared lifecycle: whether jobs are still pulled, when
/// cancellation came, and the status of every job delivered so far.
#[derive(Debug)]
pub struct WorkerPool {
    pub accepting: bool,
    pub cancelled_at: Option<u64>,
    pub handlers: Vec<HandlerStatus>,
}

pub struct PoolView {
    pub accepting: bool,
    pub cancelled_at: Option<u64>,
    pub handlers: Seq<HandlerStatus>,
}

impl View for WorkerPool {
    type V = PoolView;

    open spec fn view(&self) -> PoolView {
        PoolView {
            accepting: self.accepting,
            cancelled_at: self.cancelled_at,
            handlers: self.handlers@,
        }
    }
}

/// One thing that can happen to the pool.
pub enum PoolOp {
    /// A consumer wants to pull a job.
    Pull,
    /// The handler of job `i` returned, successfully or not.
    Return(usize, bool),
    /// The cancellation signal arrived at time `now`.
    Cancel(u64),
    /// The clock reads `now`.
    Tick(u64),
}

/// Whether the grace period that began at cancellation is over at `now`.
pub open spec fn grace_over(p: PoolView, now: u64) -> bool {
    match p.cancelled_at {
        Some(c) => now >= c + SHUTDOWN_GRACE_SECS,
        None => false,
    }
}

pub open spec fn settlement_of(p: PoolView, i: usize, ok: bool) -> Settlement {
    if i < p.handlers.len() && p.handlers[i as int] == HandlerStatus::InFlight {
        if ok {
            Settlement::Acknowledge
        } else {
            Settlement::Retry
        }
    } else {
        Settlement::Stale
    }
}

/// The pool after `op`.
pub open spec fn pool_next(p: PoolView, op: PoolOp) -> PoolView {
    match op {
        PoolOp::Pull => if p.accepting {
            PoolView { handlers: p.handlers.push(HandlerStatus::InFlight), ..p }
        } else {
            p
        },
        PoolOp::Return(i, ok) => if settlement_of(p, i, ok) == Settlement::Stale {
            p
        } else {
            PoolView {
                handlers: p.handlers.update(
                    i as int,
                    if ok {
                        HandlerStatus::Completed
                    } else {
                        HandlerStatus::Failed
                    },
                ),
                ..p
            }
        },
        PoolOp::Cancel(now) => PoolView {
            accepting: false,
            cancelled_at: match p.cancelled_at {
                Some(c) => Some(c),
                None => Some(now),
            },
            ..p
        },
        PoolOp::Tick(now) => if grace_over(p, now) {
            PoolView {
                handlers: p.handlers.map_values(
                    |h: HandlerStatus|
                        if h == HandlerStatus::InFlight {
                            HandlerStatus::Abandoned
                        } else {
                            h
                        },
                ),
                ..p
            }
        } else {
            p
        },
    }
}

pub open spec fn fresh_pool() -> PoolView {
    PoolView { accepting: true, cancelled_at: None, handlers: Seq::empty() }
}

/// The pool after `ops`, from a fresh one.
pub open spec fn pool_after(ops: Seq<PoolOp>) -> PoolView
    decreases ops.len(),
{
    if ops.len() == 0 {
        fresh_pool()
    } else {
        pool_next(pool_after(ops.drop_last()), ops.last())
    }
}

/// How many times the backend was told about job `i` over `ops`.
pub open spec fn reports(ops: Seq<PoolOp>, i: usize) -> nat
    decreases ops.len(),
{
    if ops.len() == 0 {
        0
    } else {
        let before = reports(ops.drop_last(), i);
        match ops.last() {
            PoolOp::Return(j, ok) => if j == i && settlement_of(
                pool_after(ops.drop_last()),
                j,
                ok,
            ) != Settlement::Stale {
                before + 1
            } else {
                before
            },
            _ => before,
        }
    }
}

pub open spec fn is_settled(h: HandlerStatus) -> bool {
    h == HandlerStatus::Completed || h == HandlerStatus::Failed
}

/// Shutdown safety: over any history, each delivered job is reported to the
/// backend at most once, and exactly once when its handler settled it; no
/// running handler is given up before the grace period after cancellation is
/// over; and once it is over, no job is still in flight: each was settled or
/// left to the backend for redelivery.
pub proof fn lemma_shutdown_safety(ops: Seq<PoolOp>, i: usize)
    ensures
        reports(ops, i) <= 1,
        i < pool_after(ops).handlers.len() ==> (reports(ops, i) == 1 <==> is_settled(
            pool_after(ops).handlers[i as int],
        )),
        i >= pool_after(ops).handlers.len() ==> reports(ops, i) == 0,
        ops.len() > 0 && (ops.last() matches PoolOp::Tick(now) && grace_over(
            pool_after(ops.drop_last()),
            now,
        )) ==> forall|k: int|
            0 <= k < pool_after(ops).handlers.len() ==> #[trigger] pool_after(ops).handlers[k]
                != HandlerStatus::InFlight,
        ops.len() > 0 && (ops.last() is Cancel || (ops.last() matches PoolOp::Tick(now)
            && !grace_over(pool_after(ops.drop_last()), now))) ==> pool_after(ops).handlers
            == pool_after(ops.drop_last()).handlers,
    decreases ops.len(),
{
    if ops.len() > 0 {
        lemma_shutdown_safety(ops.drop_last(), i);
    }
}

impl WorkerPool {
    pub fn new() -> (r: Self)
        ensures
            r@ == fresh_pool(),
    {
        WorkerPool { accepting: true, cancelled_at: None, handlers: Vec::new() }
    }

    /// Registers a newly pulled job and returns its index, unless the pool no
    /// longer takes jobs.
    pub fn pull(&mut self) -> (r: Option<usize>)
        requires
            old(self).handlers@.len() < usize::MAX,
        ensures
            final(self)@ == pool_next(old(self)@, PoolOp::Pull),
            r == (if old(self).accepting {
                Some(old(self).handlers@.len() as usize)
            } else {
                None
            }),
    {
        if self.accepting {
            let i = self.handlers.len();
            self.handlers.push(HandlerStatus::InFlight);
            Some(i)
        } else {
            None
        }
    }

    /// Records that the handler of job `i` returned, and says what the backend
    /// is to hear of it.
    pub fn finish(&mut self, i: usize, ok: bool) -> (r: Settlement)
        ensures
            final(self)@ == pool_next(old(self)@, PoolOp::Return(i, ok)),
            r == settlement_of(old(self)@, i, ok),
    {
        if i < self.handlers.len() && self.handlers[i] == HandlerStatus::InFlight {
            if ok {
                self.handlers.set(i, HandlerStatus::Completed);
                Settlement::Acknowledge
            } else {
                self.handlers.set(i, HandlerStatus::Failed);
                Settlement::Retry
            }
        } else {
            Settlement::Stale
        }
    }

    /// The cancellation signal: stop pulling, and start the grace period.
    pub fn cancel(&mut self, now: u64)
        ensures
            final(self)@ == pool_next(old(self)@, PoolOp::Cancel(now)),
    {
        self.accepting = false;
        if self.cancelled_at.is_none() {
            self.cancelled_at = Some(now);
        }
    }

    /// Abandons the handlers still running once the grace period is over.
    pub fn tick(&mut self, now: u64)
        ensures
            final(self)@ == pool_next(old(self)@, PoolOp::Tick(now)),
    {
        let over = match self.cancelled_at {
            Some(c) => now >= c && now - c >= SHUTDOWN_GRACE_SECS,
            None => false,
        };
        if over {
            let mut k: usize = 0;
            while k < self.handlers.len()
                invariant
                    k <= self.handlers@.len(),
                    self.handlers@.len() == old(self).handlers@.len(),
                    self.accepting == old(self).accepting,
                    self.cancelled_at == old(self).cancelled_at,
                    forall|j: int|
                        0 <= j < k ==> #[trigger] self.handlers@[j] == (if old(
                            self,
                        ).handlers@[j] == HandlerStatus::InFlight {
                            HandlerStatus::Abandoned
                        } else {
                            old(self).handlers@[j]
                        }),
                    forall|j: int|
                        k <= j < self.handlers@.len() ==> #[trigger] self.handlers@[j] == old(
                            self,
                        ).handlers@[j],
                decreases self.handlers@.len() - k,
            {
                if self.handlers[k] == HandlerStatus::InFlight {
                    self.handlers.set(k, HandlerStatus::Abandoned);
                }
                k = k + 1;
            }
            assert(self@.handlers =~= pool_next(old(self)@, PoolOp::Tick(now)).handlers);
        }
    }

    /// Whether shutdown may finish: cancellation came and no handler runs.
    pub fn is_stopped(&self) -> (r: bool)
        ensures
            r == (self.cancelled_at is Some && forall|k: int|
                0 <= k < self.handlers@.len() ==> #[trigger] self.handlers@[k]
                    != HandlerStatus::InFlight),
    {
        if self.cancelled_at.is_none() {
            return false;
        }
        let mut k: usize = 0;
        while k < self.handlers.len()
            invariant
                k <= self.handlers@.len(),
                forall|j: int| 0 <= j < k ==> #[trigger] self.handlers@[j] != HandlerStatus::InFlight,
            decreases self.handlers@.len() - k,
        {
            if self.handlers[k] == HandlerStatus::InFlight {
                return false;
            }
            k = k + 1;
        }
        true
    }
}

} // verus!
