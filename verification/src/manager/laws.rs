use crate::address::Address;
use crate::manager::model::{
    ManagerError, ManagerState, ProfileView, TaskReward, TaskStatus, TaskView, status_is,
    MAX_BIO_LEN, MAX_DESCRIPTION_LEN, MAX_TITLE_LEN, MAX_USERNAME_LEN, MIN_USERNAME_LEN,
    PAYMENT_REPUTATION,
};
use vstd::prelude::*;

verus! {

/// A request to the workflow contract.
pub enum ManagerRequest {
    Initialize { admin: Address, platform_fee_bps: u32 },
    CreateTask {
        creator: Address,
        title: Seq<u8>,
        description: Seq<u8>,
        reward: i128,
        deadline: Option<u64>,
        tags: Seq<Seq<u8>>,
        now: u64,
    },
    AssignTask { admin: Address, task_id: u32, assignee: Address },
    UpdateTaskStatus { caller: Address, task_id: u32, new_status: TaskStatus },
    ReleasePayment { admin: Address, task_id: u32, now: u64 },
    UpsertUserProfile { user: Address, username: Option<Seq<u8>>, bio: Option<Seq<u8>>, now: u64 },
    SetPaused { admin: Address, paused: bool },
}

impl ManagerState {
    /// The state after `request`, or why it was refused.
    pub open spec fn handle(self, request: ManagerRequest) -> Result<ManagerState, ManagerError> {
        match request {
            ManagerRequest::Initialize { admin, platform_fee_bps } => self.initialize(
                admin,
                platform_fee_bps,
            ),
            ManagerRequest::CreateTask {
                creator,
                title,
                description,
                reward,
                deadline,
                tags,
                now,
            } => match self.create_task(creator, title, description, reward, deadline, tags, now) {
                Ok((t, _)) => Ok(t),
                Err(e) => Err(e),
            },
            ManagerRequest::AssignTask { admin, task_id, assignee } => self.assign_task(
                admin,
                task_id,
                assignee,
            ),
            ManagerRequest::UpdateTaskStatus { caller, task_id, new_status } =>
                self.update_task_status(caller, task_id, new_status),
            ManagerRequest::ReleasePayment { admin, task_id, now } => self.release_payment(
                admin,
                task_id,
                now,
            ),
            ManagerRequest::UpsertUserProfile { user, username, bio, now } =>
                self.upsert_user_profile(user, username, bio, now),
            ManagerRequest::SetPaused { admin, paused } => self.set_paused(admin, paused),
        }
    }

    /// The task id that `request` writes a fresh task under, if it creates one.
    pub open spec fn fresh_id(self, request: ManagerRequest) -> Option<u32> {
        match request {
            ManagerRequest::CreateTask { .. } => Some(self.task_counter),
            _ => None,
        }
    }
}

/// Accepted requests keep the invariant.
pub proof fn law_requests_keep_invariant(s: ManagerState, request: ManagerRequest)
    requires
        s.inv(),
    ensures
        s.handle(request) matches Ok(t) ==> t.inv(),
{
    match s.handle(request) {
        Ok(t) => {
            match request {
                ManagerRequest::UpsertUserProfile { user, .. } => {
                    assert(t.profiles.contains_key(user));
                },
                _ => {},
            }
        },
        Err(_) => {},
    }
}

/// Workflow: apart from the task that a creation writes under the counter's
/// id, an accepted request never removes a task, never changes a task's
/// reward, creator, title or description, moves a task's status only along
/// the workflow (open, assigned, in progress, completed, verified; cancelled
/// from anything short of completed), and never un-claims a released
/// payment. A created task is open and unassigned.
pub proof fn law_workflow(s: ManagerState, request: ManagerRequest)
    requires
        s.inv(),
    ensures
        s.handle(request) matches Ok(t) ==> {
            &&& t.tasks.len() >= s.tasks.len()
            &&& forall|i: int|
                0 <= i < s.tasks.len() && s.fresh_id(request) != Some(i as u32) ==> {
                    &&& #[trigger] t.tasks[i].reward == s.tasks[i].reward
                    &&& t.tasks[i].created_by == s.tasks[i].created_by
                    &&& t.tasks[i].title == s.tasks[i].title
                    &&& t.tasks[i].description == s.tasks[i].description
                    &&& t.tasks[i].status == s.tasks[i].status || s.tasks[i].status.may_become(
                        t.tasks[i].status,
                    )
                    &&& s.rewards[i].claimed ==> t.rewards[i] == s.rewards[i]
                }
            &&& s.fresh_id(request) matches Some(id) ==> {
                &&& t.tasks[id as int].status == TaskStatus::Open
                &&& t.tasks[id as int].assignee is None
                &&& !t.rewards[id as int].claimed
            }
        },
{
    match s.handle(request) {
        Ok(t) => {
            match request {
                ManagerRequest::CreateTask { .. } => {
                    assert(s.task_counter <= s.tasks.len());
                },
                ManagerRequest::ReleasePayment { .. } => {
                    assert(t.tasks == s.tasks);
                },
                _ => {},
            }
        },
        Err(_) => {},
    }
}

/// A payment is released at most once: once it has been, every further
/// release of the same task is refused, and an authorized one is refused as
/// already released.
pub proof fn law_payment_released_once(
    s: ManagerState,
    admin: Address,
    task_id: u32,
    now: u64,
    admin2: Address,
    now2: u64,
)
    requires
        s.inv(),
    ensures
        s.release_payment(admin, task_id, now) matches Ok(t) ==> {
            &&& t.release_payment(admin2, task_id, now2) is Err
            &&& t.require_admin(admin2) is Ok ==> t.release_payment(admin2, task_id, now2) == Err::<
                ManagerState,
                ManagerError,
            >(ManagerError::AlreadyReleased)
        },
{
}

/// While the contract is paused, every task creation is refused.
pub proof fn law_paused_refuses_tasks(
    s: ManagerState,
    creator: Address,
    title: Seq<u8>,
    description: Seq<u8>,
    reward: i128,
    deadline: Option<u64>,
    tags: Seq<Seq<u8>>,
    now: u64,
)
    requires
        s.paused,
    ensures
        s.create_task(creator, title, description, reward, deadline, tags, now) == Err::<
            (ManagerState, u32),
            ManagerError,
        >(ManagerError::Paused),
{
}

/// Initialization is accepted once: afterwards it is always refused.
pub proof fn law_initialize_once(
    s: ManagerState,
    admin: Address,
    platform_fee_bps: u32,
    admin2: Address,
    platform_fee_bps2: u32,
)
    ensures
        s.initialize(admin, platform_fee_bps) matches Ok(t) ==> t.initialize(admin2, platform_fee_bps2)
            == Err::<ManagerState, ManagerError>(ManagerError::AlreadyInitialized),
{
}

/// Listing by status: every task listed has the requested status and an id
/// on the requested page below the task counter, and the list is in id order.
pub proof fn law_listing_matches_page(s: ManagerState, status: TaskStatus, page: u32, page_size: u32)
    requires
        s.inv(),
    ensures
        s.tasks_by_status(status, page, page_size) matches Ok(listed) ==> forall|k: int|
            0 <= k < listed.len() ==> {
                &&& (#[trigger] listed[k]).status == status
                &&& page * page_size <= listed[k].id < page * page_size + page_size
                &&& listed[k].id < s.task_counter
                &&& k + 1 < listed.len() ==> listed[k].id < listed[k + 1].id
            },
{
    let start = page * page_size;
    let stop = start + page_size;
    let end = if stop < s.task_counter {
        stop
    } else {
        s.task_counter as int
    };
    if start < end && start + page_size <= u32::MAX {
        lemma_window_listing(s, status, start, end);
    }
}

proof fn lemma_window_listing(s: ManagerState, status: TaskStatus, start: int, end: int)
    requires
        s.inv(),
        0 <= start < end <= s.task_counter,
    ensures
        forall|k: int|
            0 <= k < s.tasks.subrange(start, end).filter(status_is(status)).len() ==> {
                &&& (#[trigger] s.tasks.subrange(start, end).filter(status_is(status))[k]).status
                    == status
                &&& start <= s.tasks.subrange(start, end).filter(status_is(status))[k].id < end
                &&& k + 1 < s.tasks.subrange(start, end).filter(status_is(status)).len()
                    ==> s.tasks.subrange(start, end).filter(status_is(status))[k].id < s.tasks.subrange(
                    start,
                    end,
                ).filter(status_is(status))[k + 1].id
            },
{
    let window = s.tasks.subrange(start, end);
    let listed = window.filter(status_is(status));
    assert forall|a: int| 0 <= a < window.len() implies #[trigger] window[a].id == start + a by {
        assert(window[a] == s.tasks[start + a]);
    }
    lemma_filter_keeps_order(window, status_is(status));
    assert forall|k: int| 0 <= k < listed.len() implies {
        &&& (#[trigger] listed[k]).status == status
        &&& start <= listed[k].id < end
    } by {
        window.lemma_filter_pred(status_is(status), k);
        let j = choose|j: int| 0 <= j < window.len() && window[j] == listed[k];
        assert(window[j].id == start + j);
    }
}

/// Filtering keeps elements and their order: each element of the filtered
/// sequence is one of the unfiltered sequence's, and where ids increase along
/// the unfiltered sequence they increase along the filtered one.
proof fn lemma_filter_keeps_order(s: Seq<TaskView>, pred: spec_fn(TaskView) -> bool)
    requires
        forall|a: int, b: int| 0 <= a < b < s.len() ==> s[a].id < s[b].id,
    ensures
        forall|k: int|
            0 <= k < s.filter(pred).len() ==> exists|j: int|
                0 <= j < s.len() && s[j] == #[trigger] s.filter(pred)[k],
        forall|a: int, b: int|
            0 <= a < b < s.filter(pred).len() ==> s.filter(pred)[a].id < s.filter(pred)[b].id,
    decreases s.len(),
{
    reveal(Seq::filter);
    if s.len() > 0 {
        let rest = s.drop_last();
        lemma_filter_keeps_order(rest, pred);
        assert forall|k: int| 0 <= k < rest.filter(pred).len() implies exists|j: int|
            0 <= j < s.len() && s[j] == #[trigger] rest.filter(pred)[k] by {
            let j = choose|j: int| 0 <= j < rest.len() && rest[j] == rest.filter(pred)[k];
            assert(s[j] == rest[j]);
        }
        if pred(s.last()) {
            assert forall|a: int| 0 <= a < rest.filter(pred).len() implies #[trigger] rest.filter(
                pred,
            )[a].id < s.last().id by {
                let j = choose|j: int| 0 <= j < rest.len() && rest[j] == rest.filter(pred)[a];
                assert(s[j] == rest[j]);
            }
        }
    }
}

/// The tasks that pages `0` up to (not including) `pages` of size
/// `page_size` list together, in page order; a refused page lists nothing.
pub open spec fn listed_pages(s: ManagerState, status: TaskStatus, page_size: u32, pages: nat) -> Seq<
    TaskView,
>
    decreases pages,
{
    if pages == 0 {
        Seq::empty()
    } else {
        listed_pages(s, status, page_size, (pages - 1) as nat) + match s.tasks_by_status(
            status,
            (pages - 1) as u32,
            page_size,
        ) {
            Ok(listed) => listed,
            Err(_) => Seq::empty(),
        }
    }
}

proof fn lemma_pages_prefix(s: ManagerState, status: TaskStatus, page_size: u32, pages: nat)
    requires
        s.inv(),
        page_size > 0,
        pages * page_size <= u32::MAX,
    ensures
        forall|p: nat| p < pages ==> #[trigger] s.tasks_by_status(status, p as u32, page_size) is Ok,
        listed_pages(s, status, page_size, pages) == s.tasks.subrange(
            0,
            if pages * page_size < s.task_counter {
                pages * page_size
            } else {
                s.task_counter as int
            },
        ).filter(status_is(status)),
    decreases pages,
{
    broadcast use Seq::filter_distributes_over_add;

    if pages == 0 {
        assert(s.tasks.subrange(0, 0) =~= Seq::<TaskView>::empty());
        reveal(Seq::filter);
    } else {
        let n = (pages - 1) as nat;
        assert(n * page_size + page_size == pages * page_size) by (nonlinear_arith)
            requires
                n == pages - 1,
                pages > 0,
        ;
        assert(n * page_size <= pages * page_size) by (nonlinear_arith)
            requires
                n == pages - 1,
                pages > 0,
        ;
        lemma_pages_prefix(s, status, page_size, n);
        let c = s.task_counter as int;
        let a = if n * page_size < c {
            n * page_size
        } else {
            c
        };
        let b = if pages * page_size < c {
            pages * page_size
        } else {
            c
        };
        assert(n <= n * page_size) by (nonlinear_arith)
            requires
                page_size >= 1,
        ;
        assert((n as u32) as int == n);
        assert(s.tasks_by_status(status, n as u32, page_size) is Ok);
        assert(s.tasks.subrange(0, b) =~= s.tasks.subrange(0, a) + s.tasks.subrange(a, b));
        if n * page_size < c {
            assert(s.tasks_by_status(status, n as u32, page_size) == Ok::<
                Seq<TaskView>,
                ManagerError,
            >(s.tasks.subrange(a, b).filter(status_is(status))));
        } else {
            assert(a == b);
            assert(s.tasks.subrange(a, b) =~= Seq::<TaskView>::empty());
            reveal(Seq::filter);
            assert(s.tasks.subrange(a, b).filter(status_is(status)) =~= Seq::<TaskView>::empty());
        }
        assert forall|p: nat| p < pages implies #[trigger] s.tasks_by_status(
            status,
            p as u32,
            page_size,
        ) is Ok by {
            if p == n {
            } else {
                assert(p < n);
            }
        }
    }
}

/// Pages partition the listing: when pages `0` up to `pages` of a positive
/// size cover every id below the task counter without overflow, every page
/// is answered and together, in page order, they list exactly the tasks with
/// the requested status below the counter, in id order, each once.
pub proof fn law_pages_partition_listing(
    s: ManagerState,
    status: TaskStatus,
    page_size: u32,
    pages: nat,
)
    requires
        s.inv(),
        page_size > 0,
        pages * page_size <= u32::MAX,
        pages * page_size >= s.task_counter,
    ensures
        forall|p: nat| p < pages ==> #[trigger] s.tasks_by_status(status, p as u32, page_size) is Ok,
        listed_pages(s, status, page_size, pages) == s.tasks.subrange(0, s.task_counter as int).filter(
            status_is(status),
        ),
{
    lemma_pages_prefix(s, status, page_size, pages);
}

/// The state after the accepted requests among `requests`, applied in order
/// to `s`; refused requests change nothing.
pub open spec fn run(s: ManagerState, requests: Seq<ManagerRequest>) -> ManagerState
    decreases requests.len(),
{
    if requests.len() == 0 {
        s
    } else {
        let before = run(s, requests.drop_last());
        match before.handle(requests.last()) {
            Ok(after) => after,
            Err(_) => before,
        }
    }
}

/// `request` creates or updates `user`'s profile.
pub open spec fn upserts(request: ManagerRequest, user: Address) -> bool {
    request matches ManagerRequest::UpsertUserProfile { user: u, .. } && u == user
}

/// One request creates a profile for `user` only when it is an accepted
/// create-or-update of that user's profile, and no request removes one.
pub proof fn law_profile_step(s: ManagerState, request: ManagerRequest, user: Address)
    ensures
        s.handle(request) matches Ok(t) ==> (t.profiles.contains_key(user) <==> (
        s.profiles.contains_key(user) || upserts(request, user))),
{
    match s.handle(request) {
        Ok(t) => {
            match request {
                ManagerRequest::ReleasePayment { admin, task_id, now } => {
                    let task = s.tasks[task_id as int];
                    let record = s.rewards[task_id as int];
                    let released = ManagerState {
                        rewards: s.rewards.update(
                            task_id as int,
                            crate::manager::model::TaskReward {
                                claimed: true,
                                released_at: Some(now),
                                ..record
                            },
                        ),
                        ..s
                    };
                    assert(released.profiles == s.profiles);
                },
                _ => {},
            }
        },
        Err(_) => {},
    }
}

/// Profiles exist exactly after an accepted create-or-update: starting from
/// a freshly deployed contract, `user` has a profile after `requests`
/// exactly when one of them was a create-or-update of `user`'s profile that
/// the contract accepted in the state it met.
pub proof fn law_profile_exists_after_upsert(requests: Seq<ManagerRequest>, user: Address)
    ensures
        run(ManagerState::empty(), requests).profiles.contains_key(user) <==> exists|i: int|
            0 <= i < requests.len() && upserts(#[trigger] requests[i], user) && run(ManagerState::empty(), requests.take(i)).handle(requests[i]) is Ok,
    decreases requests.len(),
{
    let e = ManagerState::empty();
    if requests.len() == 0 {
        assert(!e.profiles.contains_key(user));
    } else {
        let rest = requests.drop_last();
        let last = requests.last();
        let k = rest.len() as int;
        law_profile_exists_after_upsert(rest, user);
        law_profile_step(run(e, rest), last, user);
        assert(requests.take(k) =~= rest);
        assert(requests[k] == last);
        assert forall|i: int| 0 <= i < k implies #[trigger] requests[i] == rest[i]
            && requests.take(i) == rest.take(i) by {
            assert(requests.take(i) =~= rest.take(i));
        }
        if run(e, requests).profiles.contains_key(user) {
            if !run(e, rest).profiles.contains_key(user) {
                assert(upserts(requests[k], user));
                assert(run(e, requests.take(k)).handle(requests[k]) is Ok);
            } else {
                let i = choose|i: int|
                    0 <= i < rest.len() && upserts(#[trigger] rest[i], user) && run(e, rest.take(i)).handle(rest[i]) is Ok;
                assert(requests[i] == rest[i]);
            }
        } else {
            if exists|i: int|
                0 <= i < requests.len() && upserts(#[trigger] requests[i], user) && run(e, requests.take(i)).handle(requests[i]) is Ok {
                let i = choose|i: int|
                    0 <= i < requests.len() && upserts(#[trigger] requests[i], user) && run(e, requests.take(i)).handle(requests[i]) is Ok;
                if i == k {
                    assert(run(e, rest).handle(last) is Ok);
                } else {
                    assert(rest[i] == requests[i]);
                }
            }
        }
    }
}

/// Initialization: before there is an admin it is accepted and sets the
/// admin and the fee, resets the task counter to zero and unpauses, keeping
/// tasks, payment records and profiles.
pub proof fn law_initialize(s: ManagerState, admin: Address, platform_fee_bps: u32)
    ensures
        s.admin is None ==> (s.initialize(admin, platform_fee_bps) matches Ok(t) && t.admin == Some(
            admin,
        ) && t.platform_fee_bps == platform_fee_bps && t.task_counter == 0 && !t.paused && t.tasks
            == s.tasks && t.rewards == s.rewards && t.profiles == s.profiles && t.user_tasks
            == s.user_tasks),
        s.admin is Some ==> s.initialize(admin, platform_fee_bps) is Err,
{
}

/// Creating a task: while not paused, a positive reward, a title of 1 to
/// 100 bytes and a description of at most 5000 bytes are accepted (unless the
/// counter is exhausted). The task is stored under the counter's id exactly
/// as given: title, description, reward, creator, creation time, deadline
/// and tags, open and unassigned, with an unclaimed payment record for its
/// reward; the counter moves on by one and no other task changes. Anything
/// else is refused.
pub proof fn law_create_task(
    s: ManagerState,
    creator: Address,
    title: Seq<u8>,
    description: Seq<u8>,
    reward: i128,
    deadline: Option<u64>,
    tags: Seq<Seq<u8>>,
    now: u64,
)
    requires
        s.inv(),
    ensures
        ({
            let valid = !s.paused && reward > 0 && 1 <= title.len() <= MAX_TITLE_LEN
                && description.len() <= MAX_DESCRIPTION_LEN;
            let id = s.task_counter;
            &&& valid && s.task_counter < u32::MAX ==> (s.create_task(
                creator,
                title,
                description,
                reward,
                deadline,
                tags,
                now,
            ) matches Ok((t, task_id)) && task_id == id && t.task_counter == id + 1 && t.tasks[id as int]
                == TaskView {
                id,
                title,
                description,
                reward,
                assignee: None,
                status: TaskStatus::Open,
                created_by: creator,
                created_at: now,
                deadline,
                tags,
            } && t.rewards[id as int] == TaskReward {
                task_id: id,
                amount: reward,
                claimed: false,
                released_at: None,
            } && t.tasks.len() == (if id < s.tasks.len() {
                s.tasks.len() as int
            } else {
                s.tasks.len() + 1int
            }) && (forall|j: int| 0 <= j < s.tasks.len() && j != id ==> #[trigger] t.tasks[j]
                == s.tasks[j] && t.rewards[j] == s.rewards[j]) && t.admin == s.admin && t.paused
                == s.paused && t.profiles == s.profiles && t.user_tasks == s.user_tasks)
            &&& !valid ==> s.create_task(creator, title, description, reward, deadline, tags, now) is Err
        }),
{
}

/// Assigning: the admin gives an existing open task to `assignee`; the task
/// becomes assigned to them, the link from them to the task is recorded, and
/// nothing else changes. Anyone but the admin, or a task that is not open,
/// is refused.
pub proof fn law_assign_task(s: ManagerState, admin: Address, task_id: u32, assignee: Address)
    requires
        s.inv(),
        task_id < s.tasks.len(),
    ensures
        s.admin == Some(admin) && s.tasks[task_id as int].status == TaskStatus::Open ==> (s.assign_task(
            admin,
            task_id,
            assignee,
        ) matches Ok(t) && t.tasks == s.tasks.update(
            task_id as int,
            TaskView {
                assignee: Some(assignee),
                status: TaskStatus::Assigned,
                ..s.tasks[task_id as int]
            },
        ) && t.user_tasks == s.user_tasks.insert((assignee, task_id)) && t.rewards == s.rewards
            && t.profiles == s.profiles && t.admin == s.admin && t.task_counter == s.task_counter),
        !(s.admin == Some(admin) && s.tasks[task_id as int].status == TaskStatus::Open)
            ==> s.assign_task(admin, task_id, assignee) is Err,
{
}

/// Moving a task along the workflow: its assignee starts an assigned task
/// and completes a task in progress; the admin verifies a completed task;
/// its creator or the admin cancels any task that is neither completed nor
/// verified. Each such request sets exactly that task's status and changes
/// nothing else; every other request is refused, and no request moves a
/// task back to open or assigned.
pub proof fn law_update_task_status(
    s: ManagerState,
    caller: Address,
    task_id: u32,
    new_status: TaskStatus,
)
    requires
        s.inv(),
        task_id < s.tasks.len(),
    ensures
        ({
            let task = s.tasks[task_id as int];
            let allowed = match new_status {
                TaskStatus::InProgress => task.assignee == Some(caller) && task.status
                    == TaskStatus::Assigned,
                TaskStatus::Completed => task.assignee == Some(caller) && task.status
                    == TaskStatus::InProgress,
                TaskStatus::Verified => s.admin == Some(caller) && task.status == TaskStatus::Completed,
                TaskStatus::Cancelled => (caller == task.created_by || s.admin == Some(caller))
                    && task.status != TaskStatus::Completed && task.status != TaskStatus::Verified,
                _ => false,
            };
            &&& allowed ==> s.update_task_status(caller, task_id, new_status) == Ok::<
                ManagerState,
                ManagerError,
            >(
                ManagerState {
                    tasks: s.tasks.update(task_id as int, TaskView { status: new_status, ..task }),
                    ..s
                },
            )
            &&& !allowed ==> s.update_task_status(caller, task_id, new_status) is Err
        }),
{
}

/// Releasing a payment: the admin releases the payment of a verified task
/// whose payment is unclaimed (unless the fee computation or the
/// reputation count overflows). The payment record becomes claimed at
/// `now`; if the assignee has a profile, its reputation grows by
/// `PAYMENT_REPUTATION` and its completed tasks by one, the rest of it
/// unchanged; no task and no other profile changes. Anyone but the admin, a
/// task that is not verified, or a claimed payment is refused.
pub proof fn law_release_payment(s: ManagerState, admin: Address, task_id: u32, now: u64)
    requires
        s.inv(),
        task_id < s.tasks.len(),
    ensures
        ({
            let task = s.tasks[task_id as int];
            let record = s.rewards[task_id as int];
            let allowed = s.admin == Some(admin) && task.status == TaskStatus::Verified && !record.claimed;
            &&& s.release_payment(admin, task_id, now) matches Ok(t) ==> {
                &&& allowed
                &&& t.tasks == s.tasks
                &&& t.rewards == s.rewards.update(
                    task_id as int,
                    TaskReward { claimed: true, released_at: Some(now), ..record },
                )
                &&& s.profiles.contains_key(task.assignee->0) ==> {
                    let p = s.profiles[task.assignee->0];
                    &&& t.profiles == s.profiles.insert(
                        task.assignee->0,
                        ProfileView {
                            reputation: (p.reputation + PAYMENT_REPUTATION) as u32,
                            completed_tasks: (p.completed_tasks + 1) as u32,
                            ..p
                        },
                    )
                    &&& t.profiles[task.assignee->0].reputation == p.reputation + PAYMENT_REPUTATION
                    &&& t.profiles[task.assignee->0].completed_tasks == p.completed_tasks + 1
                }
                &&& !s.profiles.contains_key(task.assignee->0) ==> t.profiles == s.profiles
                &&& t.admin == s.admin && t.task_counter == s.task_counter && t.paused == s.paused
            }
            &&& allowed && task.reward * s.platform_fee_bps <= i128::MAX && (s.profiles.contains_key(
                task.assignee->0,
            ) ==> s.profiles[task.assignee->0].reputation + PAYMENT_REPUTATION <= u32::MAX
                && s.profiles[task.assignee->0].completed_tasks + 1 <= u32::MAX) ==> s.release_payment(
                admin,
                task_id,
                now,
            ) is Ok
            &&& !allowed ==> s.release_payment(admin, task_id, now) is Err
        }),
{
}

/// Creating or updating a profile: accepted for a username of 3 to 30 bytes
/// (if given) and a bio of at most 500 bytes (if given). Afterwards the
/// user has a profile with the given username and bio, each replacing what
/// was stored; a field not given keeps its stored value (none for a new
/// profile). An existing profile keeps its address, reputation, completed
/// tasks and joining time; a new one has the user's address, no reputation,
/// no completed tasks and `now` as its joining time. Nobody else's profile
/// changes.
pub proof fn law_upsert_user_profile(
    s: ManagerState,
    user: Address,
    username: Option<Seq<u8>>,
    bio: Option<Seq<u8>>,
    now: u64,
)
    requires
        s.inv(),
    ensures
        ({
            let valid = (username matches Some(n) ==> MIN_USERNAME_LEN <= n.len() <= MAX_USERNAME_LEN)
                && (bio matches Some(b) ==> b.len() <= MAX_BIO_LEN);
            &&& valid ==> s.upsert_user_profile(user, username, bio, now) is Ok
            &&& !valid ==> s.upsert_user_profile(user, username, bio, now) is Err
            &&& s.upsert_user_profile(user, username, bio, now) matches Ok(t) ==> {
                let p = t.profiles[user];
                &&& t.profiles.contains_key(user)
                &&& t.profiles.remove(user) == s.profiles.remove(user)
                &&& username matches Some(n) ==> p.username == Some(n)
                &&& bio matches Some(b) ==> p.bio == Some(b)
                &&& s.profiles.contains_key(user) ==> {
                    let q = s.profiles[user];
                    &&& username is None ==> p.username == q.username
                    &&& bio is None ==> p.bio == q.bio
                    &&& p.address == q.address && p.reputation == q.reputation && p.completed_tasks
                        == q.completed_tasks && p.joined_at == q.joined_at
                }
                &&& !s.profiles.contains_key(user) ==> {
                    &&& username is None ==> p.username is None
                    &&& bio is None ==> p.bio is None
                    &&& p.address == user && p.reputation == 0 && p.completed_tasks == 0 && p.joined_at
                        == now
                }
                &&& t.tasks == s.tasks && t.rewards == s.rewards && t.admin == s.admin
            }
        }),
{
    match s.upsert_user_profile(user, username, bio, now) {
        Ok(t) => {
            assert(t.profiles.remove(user) =~= s.profiles.remove(user));
        },
        Err(_) => {},
    }
}

/// Pausing: the admin sets whether task creation is paused, and nothing
/// else changes; anyone else is refused.
pub proof fn law_set_paused(s: ManagerState, admin: Address, paused: bool)
    ensures
        s.admin == Some(admin) ==> s.set_paused(admin, paused) == Ok::<ManagerState, ManagerError>(
            ManagerState { paused, ..s },
        ),
        s.admin != Some(admin) ==> s.set_paused(admin, paused) is Err,
{
}

} // verus!
