//! Round-robin task scheduler.
//!
//! The scheduler keeps a FIFO ready queue of process ids without duplicates,
//! an optional current process, a tick counter against a fixed time quantum,
//! a preemption toggle, and the global elapsed-tick counter.  `tick` is the
//! only trigger for a resched decision; `schedule` performs the transition
//! and reports the (previous, next) pair for the interrupt handler to act on.

use vstd::prelude::*;

use crate::process::{ProcessStatus, ProcessTable};

verus! {

/// Timer ticks a process may run before a resched decision is forced.
pub const DEFAULT_TIME_QUANTUM: usize = 100;

/// Timer frequency in ticks per second.
pub const TICKS_PER_SECOND: u64 = 100;

/// Scheduler state.
pub struct Scheduler {
    /// Queue of ready processes waiting to run (FIFO, no duplicates).
    pub ready_queue: Vec<u64>,
    /// Current running process id (`None` if idle).
    pub current_process: Option<u64>,
    /// Scheduling time quantum in timer ticks.
    pub time_quantum: usize,
    /// Ticks elapsed in the current slice.
    pub time_counter: usize,
    /// Whether timer interrupts drive hardware context switches.
    pub preemption_enabled: bool,
    /// Timer ticks since boot (saturating).
    pub elapsed_ticks: u64,
}

impl Scheduler {
    /// The ready queue as a sequence of process ids.
    pub open spec fn queue(&self) -> Seq<u64> {
        self.ready_queue@
    }

    /// The current running process, if any.
    pub open spec fn cur(&self) -> Option<u64> {
        self.current_process
    }

    /// The time quantum in ticks.
    pub open spec fn quantum(&self) -> usize {
        self.time_quantum
    }

    /// Ticks consumed of the current slice.
    pub open spec fn counter(&self) -> usize {
        self.time_counter
    }

    /// Whether preemptive scheduling is selected.
    pub open spec fn preemption(&self) -> bool {
        self.preemption_enabled
    }

    /// Total timer ticks observed since boot.
    pub open spec fn elapsed(&self) -> u64 {
        self.elapsed_ticks
    }

    /// Well-formedness: the ready queue holds no duplicate ids, and the
    /// slice counter always sits strictly below the (positive) quantum.
    pub open spec fn wf(&self) -> bool {
        &&& self.ready_queue@.no_duplicates()
        &&& self.time_quantum >= 1
        &&& self.time_counter < self.time_quantum
    }

    /// Create a new scheduler with the default quantum, preemption enabled.
    pub fn new() -> (r: Scheduler)
        ensures
            r.wf(),
            r.queue() == Seq::<u64>::empty(),
            r.cur() is None,
            r.quantum() == DEFAULT_TIME_QUANTUM,
            r.counter() == 0,
            r.preemption(),
            r.elapsed() == 0,
    {
        Scheduler {
            ready_queue: Vec::new(),
            current_process: None,
            time_quantum: DEFAULT_TIME_QUANTUM,
            time_counter: 0,
            preemption_enabled: true,
            elapsed_ticks: 0,
        }
    }

    /// Add a process to the tail of the ready queue unless already present
    /// (idempotent).
    pub fn enqueue(&mut self, pid: u64)
        requires
            old(self).wf(),
        ensures
            final(self).wf(),
            final(self).queue() == rr_enqueue(old(self).queue(), Some(pid)),
            final(self).cur() == old(self).cur(),
            final(self).quantum() == old(self).quantum(),
            final(self).counter() == old(self).counter(),
            final(self).preemption() == old(self).preemption(),
            final(self).elapsed() == old(self).elapsed(),
    {
        if !queue_holds(&self.ready_queue, pid) {
            self.ready_queue.push(pid);
        }
    }

    /// Remove and return the head of the ready queue.
    pub fn dequeue(&mut self) -> (r: Option<u64>)
        requires
            old(self).wf(),
        ensures
            final(self).wf(),
            old(self).queue().len() == 0 ==> r is None && final(self).queue() == old(self).queue(),
            old(self).queue().len() > 0 ==> (r == Some(old(self).queue()[0])
                && final(self).queue() == old(self).queue().drop_first()),
            final(self).cur() == old(self).cur(),
            final(self).quantum() == old(self).quantum(),
            final(self).counter() == old(self).counter(),
            final(self).preemption() == old(self).preemption(),
            final(self).elapsed() == old(self).elapsed(),
    {
        if self.ready_queue.len() == 0 {
            None
        } else {
            let head = self.ready_queue.remove(0);
            proof {
                assert(final(self).queue() =~= old(self).queue().drop_first());
            }
            Some(head)
        }
    }

    /// The current running process.
    pub fn current(&self) -> (r: Option<u64>)
        ensures
            r == self.cur(),
    {
        self.current_process
    }

    /// Install a current running process.
    pub fn set_current(&mut self, pid: Option<u64>)
        requires
            old(self).wf(),
        ensures
            final(self).wf(),
            final(self).cur() == pid,
            final(self).queue() == old(self).queue(),
            final(self).quantum() == old(self).quantum(),
            final(self).counter() == old(self).counter(),
            final(self).preemption() == old(self).preemption(),
            final(self).elapsed() == old(self).elapsed(),
    {
        self.current_process = pid;
    }

    /// Count one tick of the current slice; report and reset exactly when
    /// the quantum expires.  This is the only trigger for a resched
    /// decision; it moves no process by itself.
    pub fn tick(&mut self) -> (r: bool)
        requires
            old(self).wf(),
        ensures
            final(self).wf(),
            r == tick_fires(old(self).counter() as nat, old(self).quantum() as nat),
            final(self).counter() == tick_step(old(self).counter() as nat, old(self).quantum() as nat),
            final(self).queue() == old(self).queue(),
            final(self).cur() == old(self).cur(),
            final(self).quantum() == old(self).quantum(),
            final(self).preemption() == old(self).preemption(),
            final(self).elapsed() == old(self).elapsed(),
    {
        self.time_counter = self.time_counter + 1;
        if self.time_counter >= self.time_quantum {
            self.time_counter = 0;
            true
        } else {
            false
        }
    }

    /// Count one tick of the global elapsed-time counter (saturating).
    pub fn increment_elapsed_time(&mut self)
        requires
            old(self).wf(),
        ensures
            final(self).wf(),
            final(self).elapsed() == (if old(self).elapsed() < u64::MAX {
                old(self).elapsed() + 1
            } else {
                old(self).elapsed() as int
            }),
            final(self).queue() == old(self).queue(),
            final(self).cur() == old(self).cur(),
            final(self).quantum() == old(self).quantum(),
            final(self).counter() == old(self).counter(),
            final(self).preemption() == old(self).preemption(),
    {
        self.elapsed_ticks = self.elapsed_ticks.saturating_add(1);
    }

    /// Select the next process to run, round-robin.
    ///
    /// If a current process exists and the table still marks it `Running`,
    /// it is re-enqueued at the tail (fairness); a `Blocked` or `Exited`
    /// current — or one the table does not know — is dropped from
    /// scheduling.  The new head of the queue becomes current.  Returns the
    /// (previous, next) pair for the caller to act on.
    pub fn schedule(&mut self, table: &ProcessTable) -> (r: (Option<u64>, Option<u64>))
        requires
            old(self).wf(),
            table.wf(),
        ensures
            final(self).wf(),
            r.0 == old(self).cur(),
            r.1 == rr_next(old(self).queue(), requeue_candidate(old(self).cur(), table)),
            final(self).cur() == r.1,
            final(self).queue() == rr_rest(old(self).queue(), requeue_candidate(old(self).cur(), table)),
            final(self).quantum() == old(self).quantum(),
            final(self).counter() == old(self).counter(),
            final(self).preemption() == old(self).preemption(),
            final(self).elapsed() == old(self).elapsed(),
    {
        let prev = self.current_process;

        if let Some(pid) = self.current_process {
            match crate::process::get_process_status(table, pid) {
                Some(ProcessStatus::Running) => {
                    // Still running: back to the tail of the ready queue.
                    self.enqueue(pid);
                }
                _ => {
                    // Blocked, exited, unknown, or not yet running again:
                    // drop from scheduling.
                }
            }
        }

        let next = self.dequeue();
        self.current_process = next;

        (prev, next)
    }
}

/// Whether `queue` holds `pid`.
fn queue_holds(queue: &Vec<u64>, pid: u64) -> (r: bool)
    ensures
        r == queue@.contains(pid),
{
    let n = queue.len();
    let mut i: usize = 0;
    while i < n
        invariant
            i <= n,
            n == queue@.len(),
            forall|j: int| 0 <= j < i ==> queue@[j] != pid,
        decreases n - i,
    {
        if queue[i] == pid {
            return true;
        }
        i = i + 1;
    }
    false
}

// ---------------------------------------------------------------------------
// The round-robin transition, as a mathematical step function.
// ---------------------------------------------------------------------------

/// The ready queue after re-enqueueing `cur` at the tail (idempotent).
pub open spec fn rr_enqueue(q: Seq<u64>, cur: Option<u64>) -> Seq<u64> {
    match cur {
        Some(p) => if q.contains(p) {
            q
        } else {
            q.push(p)
        },
        None => q,
    }
}

/// The process selected by one `schedule` step with requeue candidate `cur`.
pub open spec fn rr_next(q: Seq<u64>, cur: Option<u64>) -> Option<u64> {
    let q1 = rr_enqueue(q, cur);
    if q1.len() == 0 {
        None
    } else {
        Some(q1[0])
    }
}

/// The ready queue left by one `schedule` step with requeue candidate `cur`.
pub open spec fn rr_rest(q: Seq<u64>, cur: Option<u64>) -> Seq<u64> {
    let q1 = rr_enqueue(q, cur);
    if q1.len() == 0 {
        q1
    } else {
        q1.drop_first()
    }
}

/// The current process that `schedule` considers for re-enqueueing: the
/// present current process, provided the table still marks it `Running`.
pub open spec fn requeue_candidate(cur: Option<u64>, table: &ProcessTable) -> Option<u64> {
    match cur {
        Some(p) => if table.status_of(p) == Some(ProcessStatus::Running) {
            Some(p)
        } else {
            None
        },
        None => cur,
    }
}

/// Scheduler state (queue, current) after `k` `schedule` steps starting
/// from queue `q0` with no current process, when every selected process
/// stays `Running` (so each step re-enqueues its current process).
pub open spec fn rr_run(q0: Seq<u64>, k: nat) -> (Seq<u64>, Option<u64>)
    decreases k,
{
    if k == 0 {
        (q0, None)
    } else {
        let prev = rr_run(q0, (k - 1) as nat);
        (rr_rest(prev.0, prev.1), rr_next(prev.0, prev.1))
    }
}

/// Round-robin fairness: starting from a duplicate-free ready queue of N
/// ids and no current process, with every process remaining `Running`, the
/// k-th of the first N `schedule` steps selects the k-th enqueued id — each
/// id exactly once, in original enqueue order — and afterwards the queue
/// holds the other N-1 ids in rotated order.
pub proof fn lemma_round_robin_fairness(q0: Seq<u64>, k: int)
    requires
        q0.no_duplicates(),
        1 <= k <= q0.len(),
    ensures
        rr_run(q0, k as nat).1 == Some(q0[k - 1]),
        rr_run(q0, k as nat).0 =~= q0.skip(k) + q0.take(k - 1),
    decreases k,
{
    if k == 1 {
        assert(rr_run(q0, 0nat) == (q0, None::<u64>));
        assert(rr_enqueue(q0, None) == q0);
        assert(rr_next(q0, None) == Some(q0[0]));
        assert(rr_rest(q0, None) =~= q0.skip(1) + q0.take(0));
    } else {
        lemma_round_robin_fairness(q0, k - 1);
        let qk = rr_run(q0, (k - 1) as nat).0;
        let ck = rr_run(q0, (k - 1) as nat).1;
        assert(ck == Some(q0[k - 2]));
        assert(qk =~= q0.skip(k - 1) + q0.take(k - 2));

        // The id selected k-1 steps ago is no longer in the queue.
        assert(!qk.contains(q0[k - 2])) by {
            if qk.contains(q0[k - 2]) {
                let idx = choose|idx: int| 0 <= idx < qk.len() && qk[idx] == q0[k - 2];
                if idx < q0.len() - (k - 1) {
                    assert(q0[idx + k - 1] == q0[k - 2]);
                } else {
                    assert(q0[idx - (q0.len() - (k - 1))] == q0[k - 2]);
                }
                assert(false);
            }
        }

        let q1 = rr_enqueue(qk, ck);
        assert(q1 =~= q0.skip(k - 1) + q0.take(k - 1));
        assert(q1.len() == q0.len() >= 1);
        assert(q1[0] == q0[k - 1]);
        assert(rr_run(q0, k as nat).1 == Some(q0[k - 1]));
        assert(rr_run(q0, k as nat).0 =~= q0.skip(k) + q0.take(k - 1));
    }
}

/// Round-robin cycling: after all N ids have been selected once, the
/// (N+1)-th `schedule` step selects the first id again — the cycle repeats.
pub proof fn lemma_round_robin_cycle(q0: Seq<u64>)
    requires
        q0.no_duplicates(),
        q0.len() >= 1,
    ensures
        rr_run(q0, (q0.len() + 1) as nat).1 == Some(q0[0]),
{
    let n = q0.len() as int;
    lemma_round_robin_fairness(q0, n);
    let qn = rr_run(q0, n as nat).0;
    let cn = rr_run(q0, n as nat).1;
    assert(qn =~= q0.take(n - 1));
    assert(cn == Some(q0[n - 1]));
    assert(!qn.contains(q0[n - 1])) by {
        if qn.contains(q0[n - 1]) {
            let idx = choose|idx: int| 0 <= idx < qn.len() && qn[idx] == q0[n - 1];
            assert(q0[idx] == q0[n - 1]);
            assert(false);
        }
    }
    let q1 = rr_enqueue(qn, cn);
    assert(q1 =~= q0);
    assert(rr_run(q0, (q0.len() + 1) as nat).1 == Some(q0[0]));
}

/// A process id sits in at most one of the ready queue and the current
/// slot.
pub open spec fn separated(q: Seq<u64>, cur: Option<u64>) -> bool {
    match cur {
        Some(p) => !q.contains(p),
        None => true,
    }
}

/// One `schedule` step keeps ids in at most one place: starting from a
/// duplicate-free queue separated from the requeue candidate, the queue
/// it leaves is separated from the process it selects.
pub proof fn lemma_schedule_separation(q: Seq<u64>, c: Option<u64>)
    requires
        q.no_duplicates(),
        separated(q, c),
    ensures
        separated(rr_rest(q, c), rr_next(q, c)),
{
    let q1 = rr_enqueue(q, c);
    assert(q1.no_duplicates());
    if q1.len() > 0 {
        let rest = q1.drop_first();
        assert(!rest.contains(q1[0])) by {
            if rest.contains(q1[0]) {
                let idx = choose|idx: int| 0 <= idx < rest.len() && rest[idx] == q1[0];
                assert(q1[idx + 1] == q1[0]);
                assert(false);
            }
        }
    }
}

// ---------------------------------------------------------------------------
// The tick counter, as a mathematical step function.
// ---------------------------------------------------------------------------

/// Whether a tick taken at counter value `c` expires a quantum of `q`.
pub open spec fn tick_fires(c: nat, q: nat) -> bool {
    c + 1 >= q
}

/// The counter value after one tick taken at counter value `c`.
pub open spec fn tick_step(c: nat, q: nat) -> nat {
    if c + 1 >= q {
        0
    } else {
        c + 1
    }
}

/// The counter value after `k` ticks from a fresh slice (counter zero).
pub open spec fn tick_run(q: nat, k: nat) -> nat
    decreases k,
{
    if k == 0 {
        0nat
    } else {
        tick_step(tick_run(q, (k - 1) as nat), q)
    }
}

/// Of the first `q` calls to `tick` on a fresh slice with quantum `q`, the
/// first `q - 1` report no expiry and leave the counter at the call count;
/// the `q`-th reports expiry and resets the counter to zero.
pub proof fn lemma_time_quantum(q: nat, k: nat)
    requires
        1 <= k <= q,
    ensures
        tick_fires(tick_run(q, (k - 1) as nat), q) == (k == q),
        tick_run(q, k) == (if k == q {
            0nat
        } else {
            k
        }),
    decreases k,
{
    if k == 1 {
        assert(tick_run(q, 0) == 0nat);
        assert(tick_run(q, 1) == tick_step(0nat, q));
    } else {
        lemma_time_quantum(q, (k - 1) as nat);
        assert(tick_run(q, k) == tick_step(tick_run(q, (k - 1) as nat), q));
    }
}

// ---------------------------------------------------------------------------
// Free functions over an explicitly passed scheduler.
// ---------------------------------------------------------------------------

/// Disable timer-based preemption (cooperative mode takes over).
pub fn disable_preemption(sched: &mut Scheduler)
    requires
        old(sched).wf(),
    ensures
        final(sched).wf(),
        !final(sched).preemption(),
        final(sched).queue() == old(sched).queue(),
        final(sched).cur() == old(sched).cur(),
        final(sched).quantum() == old(sched).quantum(),
        final(sched).counter() == old(sched).counter(),
        final(sched).elapsed() == old(sched).elapsed(),
{
    sched.preemption_enabled = false;
}

/// Enable timer-based preemption.
pub fn enable_preemption(sched: &mut Scheduler)
    requires
        old(sched).wf(),
    ensures
        final(sched).wf(),
        final(sched).preemption(),
        final(sched).queue() == old(sched).queue(),
        final(sched).cur() == old(sched).cur(),
        final(sched).quantum() == old(sched).quantum(),
        final(sched).counter() == old(sched).counter(),
        final(sched).elapsed() == old(sched).elapsed(),
{
    sched.preemption_enabled = true;
}

/// Whether preemption is currently enabled.
pub fn is_preemption_enabled(sched: &Scheduler) -> (r: bool)
    ensures
        r == sched.preemption(),
{
    sched.preemption_enabled
}

/// Add a process to the scheduler ready queue.
pub fn enqueue_process(sched: &mut Scheduler, pid: u64)
    requires
        old(sched).wf(),
    ensures
        final(sched).wf(),
        final(sched).queue() == rr_enqueue(old(sched).queue(), Some(pid)),
        final(sched).cur() == old(sched).cur(),
        final(sched).quantum() == old(sched).quantum(),
        final(sched).counter() == old(sched).counter(),
        final(sched).preemption() == old(sched).preemption(),
        final(sched).elapsed() == old(sched).elapsed(),
{
    sched.enqueue(pid);
}

/// The current running process.
pub fn current_process(sched: &Scheduler) -> (r: Option<u64>)
    ensures
        r == sched.cur(),
{
    sched.current()
}

/// Timer interrupt entry: count the global tick, then the slice tick.
/// Returns true when a context switch is due.
pub fn timer_tick(sched: &mut Scheduler) -> (r: bool)
    requires
        old(sched).wf(),
    ensures
        final(sched).wf(),
        r == tick_fires(old(sched).counter() as nat, old(sched).quantum() as nat),
        final(sched).counter() == tick_step(old(sched).counter() as nat, old(sched).quantum() as nat),
        final(sched).elapsed() == (if old(sched).elapsed() < u64::MAX {
            old(sched).elapsed() + 1
        } else {
            old(sched).elapsed() as int
        }),
        final(sched).queue() == old(sched).queue(),
        final(sched).cur() == old(sched).cur(),
        final(sched).quantum() == old(sched).quantum(),
        final(sched).preemption() == old(sched).preemption(),
{
    sched.increment_elapsed_time();
    sched.tick()
}

/// Perform round-robin scheduling; returns (previous, next).
pub fn schedule(sched: &mut Scheduler, table: &ProcessTable) -> (r: (Option<u64>, Option<u64>))
    requires
        old(sched).wf(),
        table.wf(),
    ensures
        final(sched).wf(),
        r.0 == old(sched).cur(),
        r.1 == rr_next(old(sched).queue(), requeue_candidate(old(sched).cur(), table)),
        final(sched).cur() == r.1,
        final(sched).queue() == rr_rest(old(sched).queue(), requeue_candidate(old(sched).cur(), table)),
        final(sched).quantum() == old(sched).quantum(),
        final(sched).counter() == old(sched).counter(),
        final(sched).preemption() == old(sched).preemption(),
        final(sched).elapsed() == old(sched).elapsed(),
{
    sched.schedule(table)
}

/// Whether the current slice has consumed its quantum, without resetting
/// the counter (the reset happens on the actual switch).
pub fn check_quantum_expired(sched: &Scheduler) -> (r: bool)
    ensures
        r == (sched.counter() >= sched.quantum()),
{
    sched.time_counter >= sched.time_quantum
}

/// Elapsed whole seconds since boot, at the fixed timer frequency.
pub fn get_elapsed_seconds(sched: &Scheduler) -> (r: u64)
    ensures
        r == sched.elapsed() / TICKS_PER_SECOND,
{
    sched.elapsed_ticks / TICKS_PER_SECOND
}

} // verus!
