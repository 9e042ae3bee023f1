//! A bounded worker pool: a fixed set of workers pulling units of work from
//! one shared FIFO work channel, with an explicit two-phase termination
//! protocol (enqueue one terminate signal per worker, then wait for every
//! worker to stop).
//!
//! The pool is modelled as a single-owner state machine: the work channel is
//! a queue of [`WorkItem`]s, each worker is either running or stopped and
//! keeps the log of the tasks it has executed, and delivery hands the front
//! item to one running worker. A host that spreads the workers over real
//! threads drives one [`deliver_front`](Pool::deliver_front) per receive; the
//! accounting proved here — every submitted task is executed by exactly one
//! worker, and disposal stops every worker without deadlock — is exactly the
//! contract of that protocol.

use vstd::prelude::*;

verus! {

/// A handle for one submitted task. The pool numbers tasks in submission
/// order, so a handle doubles as the task's position in the overall order.
pub type TaskId = u64;

/// What travels on the work channel: a task to execute, or one terminate
/// signal, which stops the single worker that consumes it.
#[derive(Clone, Copy, Debug, PartialEq, Eq, Structural)]
pub enum WorkItem {
    NewTask(TaskId),
    Terminate,
}

/// A worker is spawned running and stops permanently when it consumes a
/// terminate signal; there is no transition back.
#[derive(Clone, Copy, Debug, PartialEq, Eq, Structural)]
pub enum WorkerState {
    Running,
    Stopped,
}

/// One worker slot: its diagnostic identifier, its state, and the log of the
/// tasks it has executed, in execution order.
pub struct Worker {
    pub id: usize,
    pub state: WorkerState,
    pub executed: Vec<TaskId>,
}

/// The error a pool operation reports instead of crashing.
#[derive(Debug, PartialEq, Eq, Structural)]
pub enum PoolError {
    /// No pool can be built without workers.
    ZeroSize,
    /// Every worker has already exited, so no task can be delivered.
    ChannelClosed,
}

/// How many times `id` is queued as a task in `q`.
pub open spec fn queue_task_count(q: Seq<WorkItem>, id: TaskId) -> nat
    decreases q.len(),
{
    if q.len() == 0 {
        0
    } else {
        (if q[0] == WorkItem::NewTask(id) {
            1nat
        } else {
            0nat
        }) + queue_task_count(q.drop_first(), id)
    }
}

/// How many terminate signals `q` holds.
pub open spec fn terminate_count(q: Seq<WorkItem>) -> nat
    decreases q.len(),
{
    if q.len() == 0 {
        0
    } else {
        (if q[0] == WorkItem::Terminate {
            1nat
        } else {
            0nat
        }) + terminate_count(q.drop_first())
    }
}

/// How many times `id` occurs in one worker's log.
pub open spec fn log_count(l: Seq<TaskId>, id: TaskId) -> nat
    decreases l.len(),
{
    if l.len() == 0 {
        0
    } else {
        (if l[0] == id {
            1nat
        } else {
            0nat
        }) + log_count(l.drop_first(), id)
    }
}

/// How many times `id` was executed, summed over all workers.
pub open spec fn executed_count(ws: Seq<Worker>, id: TaskId) -> nat
    decreases ws.len(),
{
    if ws.len() == 0 {
        0
    } else {
        log_count(ws[0].executed@, id) + executed_count(ws.drop_first(), id)
    }
}

/// How many workers are still running.
pub open spec fn running_count(ws: Seq<Worker>) -> nat
    decreases ws.len(),
{
    if ws.len() == 0 {
        0
    } else {
        (if ws[0].state == WorkerState::Running {
            1nat
        } else {
            0nat
        }) + running_count(ws.drop_first())
    }
}

proof fn lemma_queue_task_count_push(q: Seq<WorkItem>, x: WorkItem, id: TaskId)
    ensures
        queue_task_count(q.push(x), id) == queue_task_count(q, id) + (if x == WorkItem::NewTask(
            id,
        ) {
            1nat
        } else {
            0nat
        }),
    decreases q.len(),
{
    if q.len() == 0 {
        assert(q.push(x).drop_first() =~= q);
    } else {
        assert(q.push(x).drop_first() =~= q.drop_first().push(x));
        lemma_queue_task_count_push(q.drop_first(), x, id);
    }
}

proof fn lemma_terminate_count_push(q: Seq<WorkItem>, x: WorkItem)
    ensures
        terminate_count(q.push(x)) == terminate_count(q) + (if x == WorkItem::Terminate {
            1nat
        } else {
            0nat
        }),
    decreases q.len(),
{
    if q.len() == 0 {
        assert(q.push(x).drop_first() =~= q);
    } else {
        assert(q.push(x).drop_first() =~= q.drop_first().push(x));
        lemma_terminate_count_push(q.drop_first(), x);
    }
}

proof fn lemma_log_count_push(l: Seq<TaskId>, x: TaskId, id: TaskId)
    ensures
        log_count(l.push(x), id) == log_count(l, id) + (if x == id {
            1nat
        } else {
            0nat
        }),
    decreases l.len(),
{
    if l.len() == 0 {
        assert(l.push(x).drop_first() =~= l);
    } else {
        assert(l.push(x).drop_first() =~= l.drop_first().push(x));
        lemma_log_count_push(l.drop_first(), x, id);
    }
}

proof fn lemma_log_count_contains(l: Seq<TaskId>, id: TaskId)
    requires
        l.contains(id),
    ensures
        log_count(l, id) >= 1,
    decreases l.len(),
{
    let i = choose|i: int| 0 <= i < l.len() && l[i] == id;
    if i != 0 {
        assert(l.drop_first()[i - 1] == id);
        assert(l.drop_first().contains(id));
        lemma_log_count_contains(l.drop_first(), id);
    }
}

proof fn lemma_executed_count_update(ws: Seq<Worker>, w: int, nw: Worker, id: TaskId)
    requires
        0 <= w < ws.len(),
    ensures
        executed_count(ws.update(w, nw), id) + log_count(ws[w].executed@, id) == executed_count(
            ws,
            id,
        ) + log_count(nw.executed@, id),
    decreases ws.len(),
{
    if w == 0 {
        assert(ws.update(0, nw).drop_first() =~= ws.drop_first());
    } else {
        assert(ws.update(w, nw).drop_first() =~= ws.drop_first().update(w - 1, nw));
        lemma_executed_count_update(ws.drop_first(), w - 1, nw, id);
    }
}

proof fn lemma_running_count_update(ws: Seq<Worker>, w: int, nw: Worker)
    requires
        0 <= w < ws.len(),
    ensures
        running_count(ws.update(w, nw)) + (if ws[w].state == WorkerState::Running {
            1nat
        } else {
            0nat
        }) == running_count(ws) + (if nw.state == WorkerState::Running {
            1nat
        } else {
            0nat
        }),
    decreases ws.len(),
{
    if w == 0 {
        assert(ws.update(0, nw).drop_first() =~= ws.drop_first());
    } else {
        assert(ws.update(w, nw).drop_first() =~= ws.drop_first().update(w - 1, nw));
        lemma_running_count_update(ws.drop_first(), w - 1, nw);
    }
}

proof fn lemma_executed_count_push_worker(ws: Seq<Worker>, nw: Worker, id: TaskId)
    ensures
        executed_count(ws.push(nw), id) == executed_count(ws, id) + log_count(nw.executed@, id),
    decreases ws.len(),
{
    if ws.len() == 0 {
        assert(ws.push(nw).drop_first() =~= ws);
    } else {
        assert(ws.push(nw).drop_first() =~= ws.drop_first().push(nw));
        lemma_executed_count_push_worker(ws.drop_first(), nw, id);
    }
}

proof fn lemma_running_count_push_worker(ws: Seq<Worker>, nw: Worker)
    ensures
        running_count(ws.push(nw)) == running_count(ws) + (if nw.state == WorkerState::Running {
            1nat
        } else {
            0nat
        }),
    decreases ws.len(),
{
    if ws.len() == 0 {
        assert(ws.push(nw).drop_first() =~= ws);
    } else {
        assert(ws.push(nw).drop_first() =~= ws.drop_first().push(nw));
        lemma_running_count_push_worker(ws.drop_first(), nw);
    }
}

/// Terminate signals sit behind every queued task: once a terminate signal
/// stands in the channel, everything after it is a terminate signal too.
/// This is the shape the two-phase shutdown relies on.
spec fn terminates_at_back(q: Seq<WorkItem>) -> bool {
    forall|i: int, j: int|
        0 <= i < j < q.len() && q[i] == WorkItem::Terminate ==> q[j] == WorkItem::Terminate
}

proof fn lemma_terminate_front_all_terminates(q: Seq<WorkItem>)
    requires
        terminates_at_back(q),
        q.len() > 0,
        q[0] == WorkItem::Terminate,
    ensures
        terminate_count(q) == q.len(),
    decreases q.len(),
{
    assert(terminate_count(q) == 1 + terminate_count(q.drop_first()));
    if q.len() > 1 {
        assert(q[1] == WorkItem::Terminate);
        assert(terminates_at_back(q.drop_first())) by {
            assert forall|i: int, j: int|
                0 <= i < j < q.drop_first().len() && q.drop_first()[i]
                    == WorkItem::Terminate implies q.drop_first()[j] == WorkItem::Terminate by {
                assert(q[i + 1] == WorkItem::Terminate);
                assert(q[j + 1] == WorkItem::Terminate);
            }
        }
        lemma_terminate_front_all_terminates(q.drop_first());
    }
}

proof fn lemma_terminate_count_zero(q: Seq<WorkItem>)
    requires
        terminate_count(q) == 0,
    ensures
        forall|i: int| 0 <= i < q.len() ==> q[i] != WorkItem::Terminate,
    decreases q.len(),
{
    if q.len() > 0 {
        lemma_terminate_count_zero(q.drop_first());
        assert forall|i: int| 0 <= i < q.len() implies q[i] != WorkItem::Terminate by {
            if i > 0 {
                assert(q.drop_first()[i - 1] != WorkItem::Terminate);
            }
        }
    }
}

proof fn lemma_running_count_zero(ws: Seq<Worker>)
    requires
        forall|v: int| 0 <= v < ws.len() ==> (#[trigger] ws[v]).state != WorkerState::Running,
    ensures
        running_count(ws) == 0,
    decreases ws.len(),
{
    if ws.len() > 0 {
        assert forall|v: int|
            0 <= v < ws.drop_first().len() implies (#[trigger] ws.drop_first()[v]).state
            != WorkerState::Running by {
            assert(ws[v + 1].state != WorkerState::Running);
        }
        lemma_running_count_zero(ws.drop_first());
    }
}

proof fn lemma_running_count_full(ws: Seq<Worker>)
    requires
        running_count(ws) == ws.len(),
    ensures
        forall|v: int| 0 <= v < ws.len() ==> (#[trigger] ws[v]).state == WorkerState::Running,
    decreases ws.len(),
{
    if ws.len() > 0 {
        assert(running_count(ws.drop_first()) <= ws.drop_first().len()) by {
            lemma_running_count_le(ws.drop_first());
        }
        lemma_running_count_full(ws.drop_first());
        assert forall|v: int|
            0 <= v < ws.len() implies (#[trigger] ws[v]).state == WorkerState::Running by {
            if v > 0 {
                assert(ws.drop_first()[v - 1].state == WorkerState::Running);
            }
        }
    }
}

proof fn lemma_running_count_le(ws: Seq<Worker>)
    ensures
        running_count(ws) <= ws.len(),
    decreases ws.len(),
{
    if ws.len() > 0 {
        lemma_running_count_le(ws.drop_first());
    }
}

proof fn lemma_executed_count_one_worker(ws: Seq<Worker>, w: int, id: TaskId)
    requires
        0 <= w < ws.len(),
    ensures
        executed_count(ws, id) >= log_count(ws[w].executed@, id),
    decreases ws.len(),
{
    if w != 0 {
        lemma_executed_count_one_worker(ws.drop_first(), w - 1, id);
    }
}

proof fn lemma_executed_count_two_workers(ws: Seq<Worker>, v: int, w: int, id: TaskId)
    requires
        0 <= v < w < ws.len(),
    ensures
        executed_count(ws, id) >= log_count(ws[v].executed@, id) + log_count(ws[w].executed@, id),
    decreases ws.len(),
{
    if v == 0 {
        lemma_executed_count_one_worker(ws.drop_first(), w - 1, id);
    } else {
        lemma_executed_count_two_workers(ws.drop_first(), v - 1, w - 1, id);
    }
}

/// What one worker meets in one turn of its loop: a work item it claimed
/// from the channel, or the discovery that the channel is broken — every
/// sending end gone and nothing left to receive.
#[derive(Clone, Copy, Debug, PartialEq, Eq, Structural)]
pub enum WorkerEvent {
    Received(WorkItem),
    ChannelBroken,
}

/// What the worker does with its turn: execute the claimed task to
/// completion and keep looping, exit its loop cleanly, or exit reporting a
/// fault — a broken channel without an explicit terminate signal means the
/// shutdown protocol was not followed.
#[derive(Clone, Copy, Debug, PartialEq, Eq, Structural)]
pub enum WorkerAction {
    Execute(TaskId),
    Exit,
    ExitFault,
}

/// The decision a running worker takes on each turn of its loop. This is
/// the whole of the worker's state machine: it stays running exactly as
/// long as tasks arrive, stops cleanly on the one terminate signal it
/// consumes, and treats a broken channel as fatal, since an orderly
/// shutdown always announces itself with terminate signals.
pub fn worker_step(event: WorkerEvent) -> (r: (WorkerState, WorkerAction))
    ensures
        match event {
            WorkerEvent::Received(WorkItem::NewTask(id)) => r == (
                WorkerState::Running,
                WorkerAction::Execute(id),
            ),
            WorkerEvent::Received(WorkItem::Terminate) => r == (
                WorkerState::Stopped,
                WorkerAction::Exit,
            ),
            WorkerEvent::ChannelBroken => r == (WorkerState::Stopped, WorkerAction::ExitFault),
        },
{
    match event {
        WorkerEvent::Received(WorkItem::NewTask(id)) => (
            WorkerState::Running,
            WorkerAction::Execute(id),
        ),
        WorkerEvent::Received(WorkItem::Terminate) => (WorkerState::Stopped, WorkerAction::Exit),
        WorkerEvent::ChannelBroken => (WorkerState::Stopped, WorkerAction::ExitFault),
    }
}

/// The pool: owner of the work channel's submitting end and of the fixed
/// collection of workers. All workers share the receiving end; delivery
/// hands the front item to exactly one of them.
pub struct Pool {
    /// The work channel, front at index 0.
    queue: Vec<WorkItem>,
    /// The worker slots, fixed at construction.
    workers: Vec<Worker>,
    /// The next task handle to hand out; all smaller handles are submitted.
    next_task: TaskId,
    /// Whether the two-phase shutdown has run.
    disposed: bool,
}

impl Pool {
    /// The work channel's pending items, in delivery order.
    pub closed spec fn items(&self) -> Seq<WorkItem> {
        self.queue@
    }

    /// The worker slots.
    pub closed spec fn workers_view(&self) -> Seq<Worker> {
        self.workers@
    }

    /// How many tasks have been submitted; task handles `0..submitted()`
    /// are exactly the ones handed out so far.
    pub closed spec fn submitted(&self) -> TaskId {
        self.next_task
    }

    /// Whether the pool has been disposed of.
    pub closed spec fn is_disposed(&self) -> bool {
        self.disposed
    }

    pub open spec fn worker_count(&self) -> nat {
        self.workers_view().len()
    }

    /// The accounting at the heart of the pool's invariant: every submitted
    /// task stands exactly once between the channel and the workers'
    /// execution logs, an unsubmitted handle stands nowhere, and worker
    /// identifiers match their slots. This part holds even through the
    /// intermediate states of the shutdown protocol.
    pub open spec fn accounting_ok(&self) -> bool {
        &&& self.worker_count() > 0
        &&& forall|w: int|
            0 <= w < self.workers_view().len() ==> (#[trigger] self.workers_view()[w]).id == w
        &&& forall|id: TaskId|
            id < self.submitted() ==> #[trigger] queue_task_count(self.items(), id)
                + executed_count(self.workers_view(), id) == 1
        &&& forall|id: TaskId|
            id >= self.submitted() ==> #[trigger] queue_task_count(self.items(), id)
                + executed_count(self.workers_view(), id) == 0
    }

    /// The pool's invariant: the accounting above, and the phase shape. An
    /// undisposed pool has all its workers running and no terminate signal
    /// queued; a disposed pool has stopped every worker and drained the
    /// channel.
    pub open spec fn wf(&self) -> bool {
        &&& self.accounting_ok()
        &&& if self.is_disposed() {
            running_count(self.workers_view()) == 0 && self.items().len() == 0
        } else {
            running_count(self.workers_view()) == self.worker_count() && terminate_count(
                self.items(),
            ) == 0
        }
    }

    /// Builds a pool with exactly `size` workers, all running, with an
    /// empty work channel. A pool of zero workers cannot be built; that is
    /// reported, not crashed on.
    pub fn new(size: usize) -> (r: Result<Pool, PoolError>)
        ensures
            match r {
                Ok(p) => {
                    &&& size >= 1
                    &&& p.wf()
                    &&& p.worker_count() == size
                    &&& p.submitted() == 0
                    &&& p.items().len() == 0
                    &&& !p.is_disposed()
                    &&& forall|w: int|
                        0 <= w < size ==> (#[trigger] p.workers_view()[w]).executed@.len() == 0
                    &&& forall|w: int|
                        0 <= w < size ==> (#[trigger] p.workers_view()[w]).state
                            == WorkerState::Running
                },
                Err(e) => size == 0 && e == PoolError::ZeroSize,
            },
    {
        if size == 0 {
            return Err(PoolError::ZeroSize);
        }
        let mut workers: Vec<Worker> = Vec::new();
        let mut id: usize = 0;
        while id < size
            invariant
                id <= size,
                workers@.len() == id,
                forall|w: int| 0 <= w < id ==> (#[trigger] workers@[w]).id == w,
                forall|w: int| 0 <= w < id ==> (#[trigger] workers@[w]).executed@.len() == 0,
                forall|w: int|
                    0 <= w < id ==> (#[trigger] workers@[w]).state == WorkerState::Running,
                running_count(workers@) == id,
                forall|t: TaskId| #[trigger] executed_count(workers@, t) == 0,
            decreases size - id,
        {
            let worker = Worker { id, state: WorkerState::Running, executed: Vec::new() };
            proof {
                lemma_running_count_push_worker(workers@, worker);
                assert forall|t: TaskId| #[trigger]
                    executed_count(workers@.push(worker), t) == 0 by {
                    lemma_executed_count_push_worker(workers@, worker, t);
                }
            }
            workers.push(worker);
            id = id + 1;
        }
        Ok(Pool { queue: Vec::new(), workers, next_task: 0, disposed: false })
    }

    /// Submits one task: enqueues it at the back of the work channel and
    /// returns its handle. The task's body stays with the caller — a host
    /// pairs the handle with the closure it carries on its own channel —
    /// and the pool accounts for the task by its handle. If every worker
    /// has already exited — the receiving end of the channel is gone —
    /// the broken channel is reported to the caller as an error instead
    /// of crashing.
    pub fn submit(&mut self) -> (r: Result<TaskId, PoolError>)
        requires
            old(self).wf(),
            old(self).submitted() < TaskId::MAX,
        ensures
            final(self).wf(),
            final(self).worker_count() == old(self).worker_count(),
            final(self).workers_view() == old(self).workers_view(),
            final(self).is_disposed() == old(self).is_disposed(),
            match r {
                Ok(id) => {
                    &&& !old(self).is_disposed()
                    &&& id == old(self).submitted()
                    &&& final(self).submitted() == old(self).submitted() + 1
                    &&& final(self).items() == old(self).items().push(WorkItem::NewTask(id))
                },
                Err(e) => {
                    &&& e == PoolError::ChannelClosed
                    &&& old(self).is_disposed()
                    &&& *final(self) == *old(self)
                },
            },
    {
        if self.disposed {
            return Err(PoolError::ChannelClosed);
        }
        let id = self.next_task;
        proof {
            assert forall|t: TaskId| #[trigger]
                queue_task_count(self.queue@.push(WorkItem::NewTask(id)), t) == queue_task_count(
                self.queue@,
                t,
            ) + (if t == id {
                1nat
            } else {
                0nat
            }) by {
                lemma_queue_task_count_push(self.queue@, WorkItem::NewTask(id), t);
            }
            lemma_terminate_count_push(self.queue@, WorkItem::NewTask(id));
        }
        self.queue.push(WorkItem::NewTask(id));
        self.next_task = id + 1;
        Ok(id)
    }

    /// Hands the front item of the work channel to worker `w`: the receive
    /// step of the worker loop, which only a running worker performs. A
    /// task is appended to the worker's execution log; a terminate signal
    /// stops the worker for good.
    fn deliver(&mut self, w: usize) -> (item: WorkItem)
        requires
            old(self).accounting_ok(),
            w < old(self).worker_count(),
            old(self).workers_view()[w as int].state == WorkerState::Running,
            old(self).items().len() > 0,
        ensures
            final(self).accounting_ok(),
            item == old(self).items()[0],
            final(self).items() == old(self).items().drop_first(),
            final(self).submitted() == old(self).submitted(),
            final(self).is_disposed() == old(self).is_disposed(),
            final(self).worker_count() == old(self).worker_count(),
            final(self).workers_view()[w as int].id == old(self).workers_view()[w as int].id,
            forall|v: int|
                0 <= v < old(self).worker_count() && v != w ==> final(self).workers_view()[v]
                    == old(self).workers_view()[v],
            match item {
                WorkItem::NewTask(id) => {
                    &&& id < old(self).submitted()
                    &&& final(self).workers_view()[w as int].executed@ == old(
                        self,
                    ).workers_view()[w as int].executed@.push(id)
                    &&& final(self).workers_view()[w as int].state == WorkerState::Running
                    &&& running_count(final(self).workers_view()) == running_count(
                        old(self).workers_view(),
                    )
                    &&& terminate_count(final(self).items()) == terminate_count(old(self).items())
                },
                WorkItem::Terminate => {
                    &&& final(self).workers_view()[w as int].executed@ == old(
                        self,
                    ).workers_view()[w as int].executed@
                    &&& final(self).workers_view()[w as int].state == WorkerState::Stopped
                    &&& running_count(final(self).workers_view()) + 1 == running_count(
                        old(self).workers_view(),
                    )
                    &&& terminate_count(final(self).items()) + 1 == terminate_count(
                        old(self).items(),
                    )
                },
            },
    {
        let ghost old_items = self.queue@;
        let ghost old_workers = self.workers@;
        proof {
            assert(self.queue@.remove(0) =~= self.queue@.drop_first());
        }
        let item = self.queue.remove(0);
        match item {
            WorkItem::NewTask(id) => {
                let worker = &mut self.workers[w];
                let ghost old_worker = *worker;
                worker.executed.push(id);
                proof {
                    let nw = old_workers[w as int];
                    assert(self.workers@ =~= old_workers.update(w as int, self.workers@[w as int]));
                    assert forall|t: TaskId| #[trigger]
                        queue_task_count(self.queue@, t) + executed_count(self.workers@, t)
                            == queue_task_count(old_items, t) + executed_count(old_workers, t) - (
                        if t == id {
                            1int
                        } else {
                            0int
                        }) + (if t == id {
                            1int
                        } else {
                            0int
                        }) by {
                        lemma_executed_count_update(
                            old_workers,
                            w as int,
                            self.workers@[w as int],
                            t,
                        );
                        lemma_log_count_push(old_worker.executed@, id, t);
                        assert(queue_task_count(old_items, t) == (if old_items[0]
                            == WorkItem::NewTask(t) {
                            1nat
                        } else {
                            0nat
                        }) + queue_task_count(old_items.drop_first(), t));
                    }
                    lemma_running_count_update(old_workers, w as int, self.workers@[w as int]);
                    assert(terminate_count(old_items) == terminate_count(old_items.drop_first()));
                    if self.submitted() <= id {
                        assert(queue_task_count(old_items, id) + executed_count(old_workers, id)
                            == 0);
                        assert(false);
                    }
                }
            },
            WorkItem::Terminate => {
                let worker = &mut self.workers[w];
                worker.state = WorkerState::Stopped;
                proof {
                    assert(self.workers@ =~= old_workers.update(w as int, self.workers@[w as int]));
                    assert forall|t: TaskId| #[trigger]
                        executed_count(self.workers@, t) == executed_count(old_workers, t) by {
                        lemma_executed_count_update(
                            old_workers,
                            w as int,
                            self.workers@[w as int],
                            t,
                        );
                    }
                    assert forall|t: TaskId| #[trigger]
                        queue_task_count(self.queue@, t) == queue_task_count(old_items, t) by {
                        assert(queue_task_count(old_items, t) == (if old_items[0]
                            == WorkItem::NewTask(t) {
                            1nat
                        } else {
                            0nat
                        }) + queue_task_count(old_items.drop_first(), t));
                    }
                    lemma_running_count_update(old_workers, w as int, self.workers@[w as int]);
                    assert(terminate_count(old_items) == 1 + terminate_count(
                        old_items.drop_first(),
                    ));
                }
            },
        }
        item
    }

    /// The index of some worker that is still running.
    fn find_running(&self) -> (w: usize)
        requires
            running_count(self.workers_view()) > 0,
        ensures
            w < self.worker_count(),
            self.workers_view()[w as int].state == WorkerState::Running,
    {
        let mut i: usize = 0;
        while i < self.workers.len()
            invariant
                i <= self.workers@.len(),
                running_count(self.workers@) > 0,
                forall|v: int|
                    0 <= v < i ==> (#[trigger] self.workers@[v]).state != WorkerState::Running,
            decreases self.workers@.len() - i,
        {
            if self.workers[i].state == WorkerState::Running {
                return i;
            }
            i = i + 1;
        }
        proof {
            lemma_running_count_zero(self.workers@);
        }
        assert(false);
        0
    }

    /// Hands the front task of the work channel to worker `w`, which
    /// executes it: one receive step of a running pool, driven by the host
    /// on behalf of whichever worker won the race for the channel. Returns
    /// the handle of the task executed.
    pub fn deliver_front(&mut self, w: usize) -> (id: TaskId)
        requires
            old(self).wf(),
            !old(self).is_disposed(),
            w < old(self).worker_count(),
            old(self).items().len() > 0,
        ensures
            final(self).wf(),
            !final(self).is_disposed(),
            old(self).items()[0] == WorkItem::NewTask(id),
            id < old(self).submitted(),
            final(self).items() == old(self).items().drop_first(),
            final(self).submitted() == old(self).submitted(),
            final(self).worker_count() == old(self).worker_count(),
            final(self).workers_view()[w as int].executed@ == old(self).workers_view()[
                w as int].executed@.push(id),
            forall|v: int|
                0 <= v < old(self).worker_count() && v != w ==> final(self).workers_view()[v]
                    == old(self).workers_view()[v],
    {
        proof {
            assert(terminate_count(self.items()) == (if self.items()[0] == WorkItem::Terminate {
                1nat
            } else {
                0nat
            }) + terminate_count(self.items().drop_first()));
            lemma_running_count_full(self.workers_view());
        }
        let item = self.deliver(w);
        match item {
            WorkItem::NewTask(id) => id,
            WorkItem::Terminate => {
                assert(false);
                0
            },
        }
    }

    /// The two-phase shutdown (spoken of as disposal): first enqueue
    /// exactly one terminate signal per worker — not more, not fewer — and
    /// only then wait for the workers, each of which finishes whatever
    /// tasks it claims and stops on the one terminate signal it consumes.
    /// Interleaving the two phases could strand the wait on a busy worker
    /// whose terminate signal an idle worker stole; sending all signals
    /// first guarantees the channel holds enough of them for every worker.
    ///
    /// On return every queued task has been executed — each by exactly one
    /// worker — the channel is drained, and every worker has stopped.
    /// Disposing an already disposed pool does nothing.
    pub fn dispose(&mut self)
        requires
            old(self).wf(),
        ensures
            final(self).wf(),
            final(self).is_disposed(),
            final(self).submitted() == old(self).submitted(),
            final(self).worker_count() == old(self).worker_count(),
            final(self).items().len() == 0,
            running_count(final(self).workers_view()) == 0,
            forall|id: TaskId|
                id < final(self).submitted() ==> #[trigger] executed_count(
                    final(self).workers_view(),
                    id,
                ) == 1,
            forall|w: int|
                0 <= w < old(self).worker_count() ==> (#[trigger] old(
                    self,
                ).workers_view()[w].executed@).is_prefix_of(
                    final(self).workers_view()[w].executed@,
                ),
    {
        if self.disposed {
            proof {
                assert forall|id: TaskId| id < final(self).submitted() implies #[trigger]
                    executed_count(final(self).workers_view(), id) == 1 by {
                    assert(queue_task_count(self.items(), id) == 0);
                }
            }
            return ;
        }
        proof {
            lemma_terminate_count_zero(self.items());
        }
        let n = self.workers.len();
        let mut k: usize = 0;
        while k < n
            invariant
                self.accounting_ok(),
                !self.is_disposed(),
                n == self.worker_count(),
                self.submitted() == old(self).submitted(),
                k <= n,
                terminate_count(self.items()) == k,
                running_count(self.workers_view()) == n,
                terminates_at_back(self.items()),
                self.workers_view() == old(self).workers_view(),
            decreases n - k,
        {
            proof {
                lemma_terminate_count_push(self.queue@, WorkItem::Terminate);
                assert forall|t: TaskId| #[trigger]
                    queue_task_count(self.queue@.push(WorkItem::Terminate), t) == queue_task_count(
                    self.queue@,
                    t,
                ) by {
                    lemma_queue_task_count_push(self.queue@, WorkItem::Terminate, t);
                }
            }
            self.queue.push(WorkItem::Terminate);
            k = k + 1;
        }
        while self.queue.len() > 0
            invariant
                self.accounting_ok(),
                !self.is_disposed(),
                n == self.worker_count(),
                self.submitted() == old(self).submitted(),
                terminate_count(self.items()) == running_count(self.workers_view()),
                terminates_at_back(self.items()),
                running_count(self.workers_view()) == 0 ==> self.items().len() == 0,
                forall|w: int|
                    0 <= w < n ==> (#[trigger] old(self).workers_view()[w].executed@).is_prefix_of(
                        self.workers_view()[w].executed@,
                    ),
            decreases self.queue@.len(),
        {
            let w = self.find_running();
            let ghost before = self.queue@;
            let item = self.deliver(w);
            proof {
                assert(terminates_at_back(self.items())) by {
                    assert forall|i: int, j: int|
                        0 <= i < j < self.items().len() && self.items()[i]
                            == WorkItem::Terminate implies self.items()[j]
                        == WorkItem::Terminate by {
                        assert(before[i + 1] == WorkItem::Terminate);
                    }
                }
                if running_count(self.workers_view()) == 0 {
                    assert(item == WorkItem::Terminate);
                    lemma_terminate_front_all_terminates(before);
                }
            }
        }
        self.disposed = true;
        proof {
            assert forall|id: TaskId| id < final(self).submitted() implies #[trigger]
                executed_count(final(self).workers_view(), id) == 1 by {
                assert(queue_task_count(self.items(), id) == 0);
            }
        }
    }

    /// The number of workers, fixed at construction.
    pub fn size(&self) -> (n: usize)
        ensures
            n == self.worker_count(),
    {
        self.workers.len()
    }

    /// How many items sit undelivered in the work channel.
    pub fn pending(&self) -> (n: usize)
        ensures
            n == self.items().len(),
    {
        self.queue.len()
    }

    /// Whether the pool has gone through its two-phase shutdown.
    pub fn disposed(&self) -> (b: bool)
        ensures
            b == self.is_disposed(),
    {
        self.disposed
    }

    /// The tasks worker `w` has executed, in execution order.
    pub fn executed_log(&self, w: usize) -> (log: &Vec<TaskId>)
        requires
            w < self.worker_count(),
        ensures
            log@ == self.workers_view()[w as int].executed@,
    {
        &self.workers[w].executed
    }

    /// Whether worker `w` is still running.
    pub fn is_running(&self, w: usize) -> (b: bool)
        requires
            w < self.worker_count(),
        ensures
            b == (self.workers_view()[w as int].state == WorkerState::Running),
    {
        self.workers[w].state == WorkerState::Running
    }
}

/// No two workers ever execute the same submitted task, and no worker
/// executes a task twice: in any pool that keeps its accounting — and
/// every pool this module hands out does — a task handle stands in at most
/// one worker's execution log, at most once.
pub proof fn lemma_no_task_executed_twice(p: &Pool)
    requires
        p.accounting_ok(),
    ensures
        forall|v: int, w: int, id: TaskId|
            #![trigger p.workers_view()[v].executed@.contains(id), p.workers_view()[w].executed@.contains(id)]
            0 <= v < w < p.worker_count() ==> !(p.workers_view()[v].executed@.contains(id)
                && p.workers_view()[w].executed@.contains(id)),
        forall|w: int, id: TaskId|
            0 <= w < p.worker_count() ==> #[trigger] log_count(
                p.workers_view()[w].executed@,
                id,
            ) <= 1,
{
    assert forall|v: int, w: int, id: TaskId|
        #![trigger p.workers_view()[v].executed@.contains(id), p.workers_view()[w].executed@.contains(id)]
        0 <= v < w < p.worker_count() implies !(p.workers_view()[v].executed@.contains(id)
        && p.workers_view()[w].executed@.contains(id)) by {
        if p.workers_view()[v].executed@.contains(id) && p.workers_view()[w].executed@.contains(
            id,
        ) {
            lemma_log_count_contains(p.workers_view()[v].executed@, id);
            lemma_log_count_contains(p.workers_view()[w].executed@, id);
            lemma_executed_count_two_workers(p.workers_view(), v, w, id);
            assert(executed_count(p.workers_view(), id) >= 2);
            if id < p.submitted() {
                assert(queue_task_count(p.items(), id) + executed_count(p.workers_view(), id)
                    == 1);
            } else {
                assert(queue_task_count(p.items(), id) + executed_count(p.workers_view(), id)
                    == 0);
            }
        }
    }
    assert forall|w: int, id: TaskId| 0 <= w < p.worker_count() implies #[trigger] log_count(
        p.workers_view()[w].executed@,
        id,
    ) <= 1 by {
        lemma_executed_count_one_worker(p.workers_view(), w, id);
        if id < p.submitted() {
            assert(queue_task_count(p.items(), id) + executed_count(p.workers_view(), id) == 1);
        } else {
            assert(queue_task_count(p.items(), id) + executed_count(p.workers_view(), id) == 0);
        }
    }
}

/// Every submitted task is executed exactly once across the whole pool
/// whenever the work channel is drained — in particular after disposal.
pub proof fn lemma_drained_pool_executed_all(p: &Pool)
    requires
        p.accounting_ok(),
        p.items().len() == 0,
    ensures
        forall|id: TaskId|
            id < p.submitted() ==> #[trigger] executed_count(p.workers_view(), id) == 1,
{
    assert forall|id: TaskId| id < p.submitted() implies #[trigger] executed_count(
        p.workers_view(),
        id,
    ) == 1 by {
        assert(queue_task_count(p.items(), id) == 0);
    }
}

} // verus!
