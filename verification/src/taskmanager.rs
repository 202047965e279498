//! The task manager: validates submissions, allocates identifiers, keeps
//! the registry of task states, and answers status and cancellation
//! queries.
//!
//! Each submitted task is owned by exactly one registry entry; the
//! submitter keeps only the identifier. Executing a task is the executor
//! state machine's work; a driver records its transitions here through
//! `update_status`, which refuses every step the status machine forbids,
//! so a terminal state can never change again.

use vstd::prelude::*;
use crate::dispatch::plan_of;
use crate::push::PushConfig;

verus! {

/// The observable state of one task.
#[derive(Clone, Copy, PartialEq, Eq, Structural, Debug)]
pub enum TaskStatus {
    Pending,
    Running,
    Succeeded,
    Failed,
    Cancelled,
}

/// Terminal states are never left again.
pub open spec fn is_terminal_spec(s: TaskStatus) -> bool {
    s == TaskStatus::Succeeded || s == TaskStatus::Failed || s == TaskStatus::Cancelled
}

/// Whether a status is terminal.
pub fn is_terminal(s: TaskStatus) -> (r: bool)
    ensures
        r == is_terminal_spec(s),
{
    match s {
        TaskStatus::Succeeded => true,
        TaskStatus::Failed => true,
        TaskStatus::Cancelled => true,
        _ => false,
    }
}

/// The steps the status machine allows: a pending task starts running or
/// is cancelled before any remote call; a running task reaches exactly one
/// terminal state; a terminal state allows no step at all.
pub open spec fn status_step_ok(from: TaskStatus, to: TaskStatus) -> bool {
    match from {
        TaskStatus::Pending => to == TaskStatus::Running || to == TaskStatus::Cancelled,
        TaskStatus::Running => to == TaskStatus::Succeeded || to == TaskStatus::Failed || to
            == TaskStatus::Cancelled,
        _ => false,
    }
}

/// Once a task is terminal, no further status step is allowed: its state
/// is immutable.
pub proof fn lemma_terminal_immutable(s: TaskStatus)
    requires
        is_terminal_spec(s),
    ensures
        forall|to: TaskStatus| !status_step_ok(s, to),
{
}

/// One identified buyer record for a real-name sale.
pub struct BuyerInfo {
    pub id: i64,
    pub name: String,
    pub tel: String,
    pub personal_id: String,
    pub id_type: u8,
}

/// The single unverified contact record of a non-real-name sale.
pub struct NoBindBuyerInfo {
    pub name: String,
    pub tel: String,
    pub uid: i64,
}

/// How a sale binds tickets to buyers.
#[derive(Clone, Copy, PartialEq, Eq, Structural, Debug)]
pub enum IdBind {
    /// No binding: a single unverified contact record is enough.
    NoBind,
    /// One identified buyer for the whole order.
    SingleRealName,
    /// Per-seat real-name binding: one identified buyer per ticket.
    PerSeatRealName,
}

/// A fully resolved purchase intent: what to buy, for whom, with which
/// shared session and captcha resolver (both referenced by handle, never
/// owned), and when to start.
pub struct GrabTicketRequest {
    pub uid: i64,
    pub project_id: String,
    pub screen_id: String,
    pub ticket_id: String,
    pub count: u16,
    pub buyer_info: Vec<BuyerInfo>,
    pub no_bind_buyer: Option<NoBindBuyerInfo>,
    pub id_bind: IdBind,
    pub grab_mode: u8,
    pub start_time: Option<u64>,
    pub session: u64,
    pub captcha: u64,
    pub skip_words: Vec<String>,
}

/// A notification task: the message to fan out, and a value snapshot of
/// the channel configuration, never a shared reference to it.
pub struct PushRequest {
    pub title: String,
    pub message: String,
    pub jump_url: Option<String>,
    pub push_config: PushConfig,
}

/// What a submitter can ask for.
pub enum TaskRequest {
    GrabTicketRequest(GrabTicketRequest),
    PushRequest(PushRequest),
}

/// A purchase request is valid unless the sale requires per-seat real-name
/// binding and the buyer record count differs from the requested quantity.
pub open spec fn grab_request_valid(g: GrabTicketRequest) -> bool {
    g.id_bind == IdBind::PerSeatRealName ==> g.buyer_info@.len() == g.count as int
}

/// A notification request does real work only when notifications are
/// enabled and at least one channel is configured; otherwise it is a
/// silent no-op that still succeeds.
pub open spec fn push_request_active(p: PushRequest) -> bool {
    p.push_config@.enabled && plan_of(p.push_config@).len() > 0
}

/// The status a freshly inserted task starts in: `Pending`, except that an
/// inactive notification request is complete on arrival.
pub open spec fn initial_status_of(request: TaskRequest) -> TaskStatus {
    match request {
        TaskRequest::GrabTicketRequest(_) => TaskStatus::Pending,
        TaskRequest::PushRequest(p) => if push_request_active(p) {
            TaskStatus::Pending
        } else {
            TaskStatus::Succeeded
        },
    }
}

/// The message of a rejected submission.
pub open spec fn count_mismatch_msg() -> Seq<char> {
    "buyer record count does not match requested quantity"@
}

/// The result message of a notification task that was a silent no-op.
pub open spec fn notifications_disabled_msg() -> Seq<char> {
    "notifications disabled"@
}

/// Why a submission was refused.
#[derive(Debug)]
pub enum SubmissionError {
    /// The request breaks a validation invariant; the message names it.
    InvalidRequest(String),
}

/// Why a cancellation had no effect.
#[derive(Clone, Copy, PartialEq, Eq, Structural, Debug)]
pub enum CancelError {
    /// No task with that identifier exists.
    NotFound,
    /// The task already reached a terminal state.
    AlreadyTerminal,
}

/// One registry entry: the task's identifier, its request, its current
/// status, its result message once terminal, its creation instant, and the
/// cooperative cancellation flag.
pub struct TaskEntry {
    pub id: u64,
    pub request: TaskRequest,
    pub status: TaskStatus,
    pub result_msg: Option<String>,
    pub created_at: u64,
    pub cancel_requested: bool,
}

/// The facade: an identifier counter and the registry.
pub struct TaskManager {
    pub next_id: u64,
    pub tasks: Vec<TaskEntry>,
}

impl TaskManager {
    /// Registry well-formedness: identifiers strictly increase along the
    /// registry, and all stay below the counter.
    pub open spec fn wf(self) -> bool {
        &&& forall|i: int, j: int|
            0 <= i < j < self.tasks@.len() ==> #[trigger] self.tasks@[i].id
                < #[trigger] self.tasks@[j].id
        &&& forall|i: int| 0 <= i < self.tasks@.len() ==> #[trigger] self.tasks@[i].id < self.next_id
    }

    /// A task with this identifier exists.
    pub open spec fn has_task(self, id: u64) -> bool {
        exists|i: int| 0 <= i < self.tasks@.len() && self.tasks@[i].id == id
    }

    /// The registry index of the task with this identifier.
    pub open spec fn task_index(self, id: u64) -> int {
        choose|i: int| 0 <= i < self.tasks@.len() && self.tasks@[i].id == id
    }

    /// The entry of the task with this identifier.
    pub open spec fn entry_of(self, id: u64) -> TaskEntry {
        self.tasks@[self.task_index(id)]
    }

    /// The status of the task with this identifier.
    pub open spec fn status_of(self, id: u64) -> TaskStatus {
        self.entry_of(id).status
    }

    /// In a well-formed registry one identifier names at most one entry.
    pub proof fn lemma_index_unique(self, id: u64)
        requires
            self.wf(),
            self.has_task(id),
        ensures
            0 <= self.task_index(id) < self.tasks@.len(),
            self.tasks@[self.task_index(id)].id == id,
            forall|i: int|
                0 <= i < self.tasks@.len() && self.tasks@[i].id == id ==> i == self.task_index(id),
    {
        let k = self.task_index(id);
        assert forall|i: int|
            0 <= i < self.tasks@.len() && self.tasks@[i].id == id implies i == k by {
            if i < k {
                assert(self.tasks@[i].id < self.tasks@[k].id);
            } else if k < i {
                assert(self.tasks@[k].id < self.tasks@[i].id);
            }
        }
    }

    /// Distinct entries of a well-formed registry carry distinct
    /// identifiers: every submission got its own task.
    pub proof fn lemma_ids_distinct(self)
        requires
            self.wf(),
        ensures
            forall|i: int, j: int|
                0 <= i < self.tasks@.len() && 0 <= j < self.tasks@.len() && i != j
                    ==> #[trigger] self.tasks@[i].id != #[trigger] self.tasks@[j].id,
    {
        assert forall|i: int, j: int|
            0 <= i < self.tasks@.len() && 0 <= j < self.tasks@.len() && i != j implies
            #[trigger] self.tasks@[i].id != #[trigger] self.tasks@[j].id by {
            if i < j {
                assert(self.tasks@[i].id < self.tasks@[j].id);
            } else {
                assert(self.tasks@[j].id < self.tasks@[i].id);
            }
        }
    }

    /// An empty manager: no tasks, identifiers start at zero.
    pub fn new() -> (r: Self)
        ensures
            r.wf(),
            r.tasks@.len() == 0,
            r.next_id == 0,
    {
        Self { next_id: 0, tasks: Vec::new() }
    }

    /// Validates a request and, when it passes, allocates a fresh
    /// identifier and inserts the task. A purchase request fails
    /// validation exactly when per-seat real-name binding is required and
    /// the buyer record count differs from the quantity; an inactive
    /// notification request is accepted as a silent no-op that is
    /// complete on arrival.
    pub fn submit_task(&mut self, request: TaskRequest, now: u64) -> (r: Result<
        u64,
        SubmissionError,
    >)
        requires
            old(self).wf(),
            old(self).next_id < u64::MAX,
        ensures
            final(self).wf(),
            (r is Err) == (request matches TaskRequest::GrabTicketRequest(g)
                && !grab_request_valid(g)),
            r is Err ==> *final(self) == *old(self),
            r matches Err(SubmissionError::InvalidRequest(m)) ==> m@ == count_mismatch_msg(),
            r matches Ok(id) ==> ({
                &&& id == old(self).next_id
                &&& !old(self).has_task(id)
                &&& final(self).has_task(id)
                &&& final(self).next_id == old(self).next_id + 1
                &&& final(self).tasks@ == old(self).tasks@.push(final(self).tasks@.last())
                &&& ({
                    let e = final(self).tasks@.last();
                    &&& e.id == id
                    &&& e.request == request
                    &&& e.status == initial_status_of(request)
                    &&& e.created_at == now
                    &&& !e.cancel_requested
                    &&& (e.result_msg matches Some(m) ==> m@ == notifications_disabled_msg())
                    &&& (e.result_msg is Some) == (e.status == TaskStatus::Succeeded)
                })
            }),
    {
        let valid = match &request {
            TaskRequest::GrabTicketRequest(g) => {
                match g.id_bind {
                    IdBind::PerSeatRealName => g.buyer_info.len() == g.count as usize,
                    _ => true,
                }
            },
            TaskRequest::PushRequest(_) => true,
        };
        if !valid {
            return Err(
                SubmissionError::InvalidRequest(
                    String::from_str("buyer record count does not match requested quantity"),
                ),
            );
        }
        let active = match &request {
            TaskRequest::GrabTicketRequest(_) => true,
            TaskRequest::PushRequest(p) => {
                p.push_config.enabled && crate::dispatch::channel_plan(&p.push_config).len() > 0
            },
        };
        let id = self.next_id;
        self.next_id = self.next_id + 1;
        let status = if active {
            TaskStatus::Pending
        } else {
            TaskStatus::Succeeded
        };
        let result_msg = if active {
            None
        } else {
            Some(String::from_str("notifications disabled"))
        };
        let entry = TaskEntry {
            id,
            request,
            status,
            result_msg,
            created_at: now,
            cancel_requested: false,
        };
        let ghost old_tasks = self.tasks@;
        self.tasks.push(entry);
        proof {
            assert(self.tasks@.last().id == id);
            assert(forall|i: int| 0 <= i < old_tasks.len() ==> #[trigger] old_tasks[i].id < id);
            assert(self.wf());
            if old(self).has_task(id) {
                let i = choose|i: int|
                    0 <= i < old_tasks.len() && old_tasks[i].id == id;
                assert(old_tasks[i].id < id);
            }
        }
        Ok(id)
    }

    /// Reads the current status of a task; absent identifiers give
    /// `None`, never an error.
    pub fn query_status(&self, id: u64) -> (r: Option<TaskStatus>)
        requires
            self.wf(),
        ensures
            (r is Some) == self.has_task(id),
            r matches Some(s) ==> s == self.status_of(id),
    {
        let n = self.tasks.len();
        let mut i: usize = 0;
        while i < n
            invariant
                self.wf(),
                i <= n,
                n == self.tasks@.len(),
                forall|j: int| 0 <= j < i ==> #[trigger] self.tasks@[j].id != id,
            decreases n - i,
        {
            if self.tasks[i].id == id {
                proof {
                    self.lemma_index_unique(id);
                }
                return Some(self.tasks[i].status);
            }
            i = i + 1;
        }
        None
    }

    /// Signals cancellation: sets the cooperative flag that the task's
    /// executor checks before its next wait or attempt. Has effect only
    /// while the task exists and is not yet terminal; otherwise the
    /// registry is left untouched and the error says why.
    pub fn cancel(&mut self, id: u64) -> (r: Result<(), CancelError>)
        requires
            old(self).wf(),
        ensures
            final(self).wf(),
            !old(self).has_task(id) ==> r == Result::<(), CancelError>::Err(CancelError::NotFound)
                && *final(self) == *old(self),
            old(self).has_task(id) && is_terminal_spec(old(self).status_of(id)) ==> r
                == Result::<(), CancelError>::Err(CancelError::AlreadyTerminal) && *final(self)
                == *old(self),
            old(self).has_task(id) && !is_terminal_spec(old(self).status_of(id)) ==> ({
                &&& r is Ok
                &&& final(self).tasks@ == old(self).tasks@.update(
                    old(self).task_index(id),
                    final(self).tasks@[old(self).task_index(id)],
                )
                &&& ({
                    let e_old = old(self).entry_of(id);
                    let e_new = final(self).tasks@[old(self).task_index(id)];
                    &&& e_new.cancel_requested
                    &&& e_new.id == e_old.id
                    &&& e_new.request == e_old.request
                    &&& e_new.status == e_old.status
                    &&& e_new.result_msg == e_old.result_msg
                    &&& e_new.created_at == e_old.created_at
                })
            }),
    {
        let n = self.tasks.len();
        let mut i: usize = 0;
        while i < n
            invariant
                old(self) == self,
                old(self).wf(),
                i <= n,
                n == self.tasks@.len(),
                forall|j: int| 0 <= j < i ==> #[trigger] self.tasks@[j].id != id,
            decreases n - i,
        {
            if self.tasks[i].id == id {
                proof {
                    self.lemma_index_unique(id);
                    assert(self.task_index(id) == i as int);
                }
                if is_terminal(self.tasks[i].status) {
                    return Err(CancelError::AlreadyTerminal);
                }
                let ghost pre = self.tasks@;
                let ghost k = i as int;
                let e = &mut self.tasks[i];
                e.cancel_requested = true;
                proof {
                    assert(self.tasks@ == pre.update(k, self.tasks@[k]));
                    assert forall|a: int|
                        0 <= a < self.tasks@.len() implies #[trigger] self.tasks@[a].id
                        == pre[a].id by {
                        if a != k {
                            assert(self.tasks@[a] == pre[a]);
                        }
                    }
                    assert(self.wf());
                }
                return Ok(());
            }
            i = i + 1;
        }
        Err(CancelError::NotFound)
    }

    /// Records one executor transition. The step is applied exactly when
    /// the task exists and the status machine allows it; a forbidden
    /// step, in particular any step out of a terminal state, leaves the
    /// registry untouched and gives `false`.
    pub fn update_status(&mut self, id: u64, to: TaskStatus, msg: Option<String>) -> (r: bool)
        requires
            old(self).wf(),
        ensures
            final(self).wf(),
            r == (old(self).has_task(id) && status_step_ok(old(self).status_of(id), to)),
            !r ==> *final(self) == *old(self),
            r ==> ({
                &&& final(self).tasks@ == old(self).tasks@.update(
                    old(self).task_index(id),
                    final(self).tasks@[old(self).task_index(id)],
                )
                &&& ({
                    let e_old = old(self).entry_of(id);
                    let e_new = final(self).tasks@[old(self).task_index(id)];
                    &&& e_new.status == to
                    &&& e_new.result_msg == msg
                    &&& e_new.id == e_old.id
                    &&& e_new.request == e_old.request
                    &&& e_new.created_at == e_old.created_at
                    &&& e_new.cancel_requested == e_old.cancel_requested
                })
            }),
    {
        let n = self.tasks.len();
        let mut i: usize = 0;
        while i < n
            invariant
                old(self) == self,
                old(self).wf(),
                i <= n,
                n == self.tasks@.len(),
                forall|j: int| 0 <= j < i ==> #[trigger] self.tasks@[j].id != id,
            decreases n - i,
        {
            if self.tasks[i].id == id {
                proof {
                    self.lemma_index_unique(id);
                    assert(self.task_index(id) == i as int);
                }
                let allowed = match self.tasks[i].status {
                    TaskStatus::Pending => matches!(
                        to,
                        TaskStatus::Running
                    ) || matches!(to, TaskStatus::Cancelled),
                    TaskStatus::Running => matches!(to, TaskStatus::Succeeded) || matches!(
                        to,
                        TaskStatus::Failed
                    ) || matches!(to, TaskStatus::Cancelled),
                    _ => false,
                };
                if !allowed {
                    return false;
                }
                let ghost pre = self.tasks@;
                let ghost k = i as int;
                let e = &mut self.tasks[i];
                e.status = to;
                e.result_msg = msg;
                proof {
                    assert(self.tasks@ == pre.update(k, self.tasks@[k]));
                    assert forall|a: int|
                        0 <= a < self.tasks@.len() implies #[trigger] self.tasks@[a].id
                        == pre[a].id by {
                        if a != k {
                            assert(self.tasks@[a] == pre[a]);
                        }
                    }
                    assert(self.wf());
                }
                return true;
            }
            i = i + 1;
        }
        false
    }
}

} // verus!
