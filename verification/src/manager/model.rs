use crate::address::Address;
use crate::fees::fee_computable;
use crate::text::{copy_byte_lists, copy_bytes};
use vstd::prelude::*;

verus! {

/// The longest title a task may have, in bytes.
pub const MAX_TITLE_LEN: usize = 100;

/// The longest description a task may have, in bytes.
pub const MAX_DESCRIPTION_LEN: usize = 5000;

/// The shortest username a profile may have, in bytes.
pub const MIN_USERNAME_LEN: usize = 3;

/// The longest username a profile may have, in bytes.
pub const MAX_USERNAME_LEN: usize = 30;

/// The longest bio a profile may have, in bytes.
pub const MAX_BIO_LEN: usize = 500;

/// The reputation an assignee earns when a payment is released to them.
pub const PAYMENT_REPUTATION: u32 = 10;

/// Where a task stands in the managed workflow.
#[derive(Clone, Copy, PartialEq, Eq, Debug, Structural)]
pub enum TaskStatus {
    Open,
    Assigned,
    InProgress,
    Completed,
    Verified,
    Cancelled,
}

impl TaskStatus {
    /// The status changes the workflow allows.
    pub open spec fn may_become(self, next: TaskStatus) -> bool {
        match (self, next) {
            (TaskStatus::Open, TaskStatus::Assigned) => true,
            (TaskStatus::Assigned, TaskStatus::InProgress) => true,
            (TaskStatus::InProgress, TaskStatus::Completed) => true,
            (TaskStatus::Completed, TaskStatus::Verified) => true,
            (TaskStatus::Open, TaskStatus::Cancelled) => true,
            (TaskStatus::Assigned, TaskStatus::Cancelled) => true,
            (TaskStatus::InProgress, TaskStatus::Cancelled) => true,
            (TaskStatus::Cancelled, TaskStatus::Cancelled) => true,
            _ => false,
        }
    }

    /// Whether a task in this status has been given to someone.
    pub fn assigned(self) -> (assigned: bool)
        ensures
            assigned == self.has_assignee(),
    {
        match self {
            TaskStatus::Assigned | TaskStatus::InProgress | TaskStatus::Completed | TaskStatus::Verified => true,
            TaskStatus::Open | TaskStatus::Cancelled => false,
        }
    }

    /// A task in this status has been given to someone.
    pub open spec fn has_assignee(self) -> bool {
        ||| self == TaskStatus::Assigned
        ||| self == TaskStatus::InProgress
        ||| self == TaskStatus::Completed
        ||| self == TaskStatus::Verified
    }
}

/// A task of the workflow contract. Text is kept as the bytes of the ledger
/// string.
#[derive(Debug)]
pub struct Task {
    pub id: u32,
    pub title: Vec<u8>,
    pub description: Vec<u8>,
    pub reward: i128,
    pub assignee: Option<Address>,
    pub status: TaskStatus,
    pub created_by: Address,
    pub created_at: u64,
    pub deadline: Option<u64>,
    pub tags: Vec<Vec<u8>>,
}

/// The mathematical content of a [`Task`].
pub struct TaskView {
    pub id: u32,
    pub title: Seq<u8>,
    pub description: Seq<u8>,
    pub reward: i128,
    pub assignee: Option<Address>,
    pub status: TaskStatus,
    pub created_by: Address,
    pub created_at: u64,
    pub deadline: Option<u64>,
    pub tags: Seq<Seq<u8>>,
}

impl View for Task {
    type V = TaskView;

    open spec fn view(&self) -> TaskView {
        TaskView {
            id: self.id,
            title: self.title@,
            description: self.description@,
            reward: self.reward,
            assignee: self.assignee,
            status: self.status,
            created_by: self.created_by,
            created_at: self.created_at,
            deadline: self.deadline,
            tags: self.tags.deep_view(),
        }
    }
}

impl TaskView {
    pub open spec fn with_status(self, status: TaskStatus) -> TaskView {
        TaskView { status, ..self }
    }
}

impl Task {
    /// A copy of the task.
    pub fn duplicate(&self) -> (copy: Task)
        ensures
            copy@ == self@,
    {
        Task {
            id: self.id,
            title: copy_bytes(&self.title),
            description: copy_bytes(&self.description),
            reward: self.reward,
            assignee: self.assignee,
            status: self.status,
            created_by: self.created_by,
            created_at: self.created_at,
            deadline: self.deadline,
            tags: copy_byte_lists(&self.tags),
        }
    }
}

/// A contributor's profile in the workflow contract.
#[derive(Debug)]
pub struct UserProfile {
    pub address: Address,
    pub username: Option<Vec<u8>>,
    pub reputation: u32,
    pub completed_tasks: u32,
    pub joined_at: u64,
    pub bio: Option<Vec<u8>>,
}

/// The mathematical content of a [`UserProfile`].
pub struct ProfileView {
    pub address: Address,
    pub username: Option<Seq<u8>>,
    pub reputation: u32,
    pub completed_tasks: u32,
    pub joined_at: u64,
    pub bio: Option<Seq<u8>>,
}

/// The view of optional text.
pub open spec fn text_view(text: Option<Vec<u8>>) -> Option<Seq<u8>> {
    match text {
        Some(bytes) => Some(bytes@),
        None => None,
    }
}

impl View for UserProfile {
    type V = ProfileView;

    open spec fn view(&self) -> ProfileView {
        ProfileView {
            address: self.address,
            username: text_view(self.username),
            reputation: self.reputation,
            completed_tasks: self.completed_tasks,
            joined_at: self.joined_at,
            bio: text_view(self.bio),
        }
    }
}

fn copy_text(text: &Option<Vec<u8>>) -> (copy: Option<Vec<u8>>)
    ensures
        text_view(copy) == text_view(*text),
{
    match text {
        Some(bytes) => Some(copy_bytes(bytes)),
        None => None,
    }
}

impl UserProfile {
    /// A copy of the profile.
    pub fn duplicate(&self) -> (copy: UserProfile)
        ensures
            copy@ == self@,
    {
        UserProfile {
            address: self.address,
            username: copy_text(&self.username),
            reputation: self.reputation,
            completed_tasks: self.completed_tasks,
            joined_at: self.joined_at,
            bio: copy_text(&self.bio),
        }
    }
}

/// The payment record of a task.
#[derive(Clone, Copy, PartialEq, Eq, Debug, Structural)]
pub struct TaskReward {
    pub task_id: u32,
    pub amount: i128,
    pub claimed: bool,
    pub released_at: Option<u64>,
}

/// Why the workflow contract refused a request.
#[derive(Clone, Copy, PartialEq, Eq, Debug, Structural)]
pub enum ManagerError {
    AlreadyInitialized,
    NotInitialized,
    NotAuthorized,
    Paused,
    RewardNotPositive,
    InvalidTitle,
    DescriptionTooLong,
    TaskNotFound,
    TaskNotOpen,
    NotAssigneeToStart,
    NotAssigned,
    NotAssigneeToComplete,
    NotInProgress,
    NotCompleted,
    NotCreatorOrAdmin,
    CannotCancelCompleted,
    InvalidTransition,
    NotVerified,
    AlreadyReleased,
    NoAssignee,
    InvalidUsername,
    BioTooLong,
    Overflow,
}

/// The whole state of the workflow contract.
pub struct ManagerState {
    pub admin: Option<Address>,
    /// The platform fee in basis points; zero until initialization.
    pub platform_fee_bps: u32,
    pub paused: bool,
    /// The id the next task gets.
    pub task_counter: u32,
    /// Task `i` has id `i`. Ids at or past the counter stay stored when the
    /// counter is reset.
    pub tasks: Seq<TaskView>,
    /// The payment record of task `i`.
    pub rewards: Seq<TaskReward>,
    pub profiles: Map<Address, ProfileView>,
    /// The (assignee, task id) pairs recorded on assignment.
    pub user_tasks: Set<(Address, u32)>,
}

/// Whether a task has the given status.
pub open spec fn status_is(status: TaskStatus) -> spec_fn(TaskView) -> bool {
    |t: TaskView| t.status == status
}

impl ManagerState {
    /// A freshly deployed contract.
    pub open spec fn empty() -> ManagerState {
        ManagerState {
            admin: None,
            platform_fee_bps: 0,
            paused: false,
            task_counter: 0,
            tasks: Seq::empty(),
            rewards: Seq::empty(),
            profiles: Map::empty(),
            user_tasks: Set::empty(),
        }
    }

    /// What every reachable state satisfies.
    pub open spec fn inv(self) -> bool {
        &&& self.tasks.len() == self.rewards.len()
        &&& self.task_counter <= self.tasks.len() <= u32::MAX
        &&& forall|i: int| 0 <= i < self.tasks.len() ==> self.task_ok(i, #[trigger] self.tasks[i])
        &&& forall|a: Address| #[trigger] self.profiles.contains_key(a) ==> self.profiles[a].address == a
    }

    /// Task `task`, stored under index `i`, is consistent with the rest of
    /// the state: it has id `i` and a positive reward, it has an assignee
    /// once assigned, and its payment record is for it, for its reward,
    /// claimed only once the task is verified, and has a release time
    /// exactly when claimed.
    pub open spec fn task_ok(self, i: int, task: TaskView) -> bool {
        &&& task.id == i
        &&& task.reward > 0
        &&& task.status.has_assignee() ==> task.assignee is Some
        &&& self.rewards[i].task_id == i
        &&& self.rewards[i].amount == task.reward
        &&& self.rewards[i].claimed ==> task.status == TaskStatus::Verified
        &&& (self.rewards[i].released_at is Some <==> self.rewards[i].claimed)
    }

    pub open spec fn has_task(self, task_id: u32) -> bool {
        task_id < self.tasks.len()
    }

    pub open spec fn with_task(self, task_id: u32, task: TaskView) -> ManagerState {
        ManagerState { tasks: self.tasks.update(task_id as int, task), ..self }
    }

    /// The check that `caller` is the admin.
    pub open spec fn require_admin(self, caller: Address) -> Result<(), ManagerError> {
        match self.admin {
            None => Err(ManagerError::NotInitialized),
            Some(admin) => if admin != caller {
                Err(ManagerError::NotAuthorized)
            } else {
                Ok(())
            },
        }
    }

    pub open spec fn initialize(self, admin: Address, platform_fee_bps: u32) -> Result<
        ManagerState,
        ManagerError,
    > {
        if self.admin is Some {
            Err(ManagerError::AlreadyInitialized)
        } else {
            Ok(
                ManagerState {
                    admin: Some(admin),
                    platform_fee_bps,
                    task_counter: 0,
                    paused: false,
                    ..self
                },
            )
        }
    }

    pub open spec fn create_task(
        self,
        creator: Address,
        title: Seq<u8>,
        description: Seq<u8>,
        reward: i128,
        deadline: Option<u64>,
        tags: Seq<Seq<u8>>,
        now: u64,
    ) -> Result<(ManagerState, u32), ManagerError> {
        if self.paused {
            Err(ManagerError::Paused)
        } else if reward <= 0 {
            Err(ManagerError::RewardNotPositive)
        } else if title.len() == 0 || title.len() > MAX_TITLE_LEN {
            Err(ManagerError::InvalidTitle)
        } else if description.len() > MAX_DESCRIPTION_LEN {
            Err(ManagerError::DescriptionTooLong)
        } else if self.task_counter == u32::MAX {
            Err(ManagerError::Overflow)
        } else {
            let task_id = self.task_counter;
            let task = TaskView {
                id: task_id,
                title,
                description,
                reward,
                assignee: None,
                status: TaskStatus::Open,
                created_by: creator,
                created_at: now,
                deadline,
                tags,
            };
            let record = TaskReward { task_id, amount: reward, claimed: false, released_at: None };
            let (tasks, rewards) = if task_id < self.tasks.len() {
                (
                    self.tasks.update(task_id as int, task),
                    self.rewards.update(task_id as int, record),
                )
            } else {
                (self.tasks.push(task), self.rewards.push(record))
            };
            Ok(
                (
                    ManagerState { task_counter: (task_id + 1) as u32, tasks, rewards, ..self },
                    task_id,
                ),
            )
        }
    }

    pub open spec fn assign_task(self, admin: Address, task_id: u32, assignee: Address) -> Result<
        ManagerState,
        ManagerError,
    > {
        if let Err(e) = self.require_admin(admin) {
            Err(e)
        } else if !self.has_task(task_id) {
            Err(ManagerError::TaskNotFound)
        } else if self.tasks[task_id as int].status != TaskStatus::Open {
            Err(ManagerError::TaskNotOpen)
        } else {
            let task = self.tasks[task_id as int];
            Ok(
                ManagerState {
                    tasks: self.tasks.update(
                        task_id as int,
                        TaskView { assignee: Some(assignee), status: TaskStatus::Assigned, ..task },
                    ),
                    user_tasks: self.user_tasks.insert((assignee, task_id)),
                    ..self
                },
            )
        }
    }

    /// The check that `caller` may move task `task` to `new_status`.
    pub open spec fn transition_check(
        self,
        caller: Address,
        task: TaskView,
        new_status: TaskStatus,
    ) -> Result<(), ManagerError> {
        match new_status {
            TaskStatus::InProgress => if Some(caller) != task.assignee {
                Err(ManagerError::NotAssigneeToStart)
            } else if task.status != TaskStatus::Assigned {
                Err(ManagerError::NotAssigned)
            } else {
                Ok(())
            },
            TaskStatus::Completed => if Some(caller) != task.assignee {
                Err(ManagerError::NotAssigneeToComplete)
            } else if task.status != TaskStatus::InProgress {
                Err(ManagerError::NotInProgress)
            } else {
                Ok(())
            },
            TaskStatus::Verified => if let Err(e) = self.require_admin(caller) {
                Err(e)
            } else if task.status != TaskStatus::Completed {
                Err(ManagerError::NotCompleted)
            } else {
                Ok(())
            },
            TaskStatus::Cancelled => if caller != task.created_by && self.admin is None {
                Err(ManagerError::NotInitialized)
            } else if caller != task.created_by && self.admin != Some(caller) {
                Err(ManagerError::NotCreatorOrAdmin)
            } else if task.status == TaskStatus::Completed || task.status == TaskStatus::Verified {
                Err(ManagerError::CannotCancelCompleted)
            } else {
                Ok(())
            },
            _ => Err(ManagerError::InvalidTransition),
        }
    }

    pub open spec fn update_task_status(
        self,
        caller: Address,
        task_id: u32,
        new_status: TaskStatus,
    ) -> Result<ManagerState, ManagerError> {
        if !self.has_task(task_id) {
            Err(ManagerError::TaskNotFound)
        } else {
            let task = self.tasks[task_id as int];
            match self.transition_check(caller, task, new_status) {
                Err(e) => Err(e),
                Ok(()) => Ok(self.with_task(task_id, task.with_status(new_status))),
            }
        }
    }

    /// Adds `points` to the reputation of `user`'s profile and counts one
    /// more completed task; a user without a profile is left alone.
    pub open spec fn update_user_reputation(self, user: Address, points: u32) -> Result<
        ManagerState,
        ManagerError,
    > {
        if !self.profiles.contains_key(user) {
            Ok(self)
        } else {
            let p = self.profiles[user];
            if p.reputation + points > u32::MAX || p.completed_tasks + 1 > u32::MAX {
                Err(ManagerError::Overflow)
            } else {
                Ok(
                    ManagerState {
                        profiles: self.profiles.insert(
                            user,
                            ProfileView {
                                reputation: (p.reputation + points) as u32,
                                completed_tasks: (p.completed_tasks + 1) as u32,
                                ..p
                            },
                        ),
                        ..self
                    },
                )
            }
        }
    }

    pub open spec fn release_payment(self, admin: Address, task_id: u32, now: u64) -> Result<
        ManagerState,
        ManagerError,
    > {
        if let Err(e) = self.require_admin(admin) {
            Err(e)
        } else if !self.has_task(task_id) {
            Err(ManagerError::TaskNotFound)
        } else {
            let task = self.tasks[task_id as int];
            let record = self.rewards[task_id as int];
            if task.status != TaskStatus::Verified {
                Err(ManagerError::NotVerified)
            } else if record.claimed {
                Err(ManagerError::AlreadyReleased)
            } else if !fee_computable(task.reward as int, self.platform_fee_bps as int) {
                Err(ManagerError::Overflow)
            } else if task.assignee is None {
                Err(ManagerError::NoAssignee)
            } else {
                let released = ManagerState {
                    rewards: self.rewards.update(
                        task_id as int,
                        TaskReward { claimed: true, released_at: Some(now), ..record },
                    ),
                    ..self
                };
                released.update_user_reputation(task.assignee->0, PAYMENT_REPUTATION)
            }
        }
    }

    pub open spec fn upsert_user_profile(
        self,
        user: Address,
        username: Option<Seq<u8>>,
        bio: Option<Seq<u8>>,
        now: u64,
    ) -> Result<ManagerState, ManagerError> {
        if username matches Some(name) && (name.len() < MIN_USERNAME_LEN || name.len()
            > MAX_USERNAME_LEN) {
            Err(ManagerError::InvalidUsername)
        } else if bio matches Some(text) && text.len() > MAX_BIO_LEN {
            Err(ManagerError::BioTooLong)
        } else {
            let base = if self.profiles.contains_key(user) {
                self.profiles[user]
            } else {
                ProfileView {
                    address: user,
                    username: None,
                    reputation: 0,
                    completed_tasks: 0,
                    joined_at: now,
                    bio: None,
                }
            };
            let named = if username is Some {
                ProfileView { username, ..base }
            } else {
                base
            };
            let profile = if bio is Some {
                ProfileView { bio, ..named }
            } else {
                named
            };
            Ok(ManagerState { profiles: self.profiles.insert(user, profile), ..self })
        }
    }

    pub open spec fn set_paused(self, admin: Address, paused: bool) -> Result<
        ManagerState,
        ManagerError,
    > {
        if let Err(e) = self.require_admin(admin) {
            Err(e)
        } else {
            Ok(ManagerState { paused, ..self })
        }
    }

    /// The tasks with ids in `[start, end)` that have `status`, in id order,
    /// where the page covers ids `page * page_size` up to but not including
    /// `page * page_size + page_size`, cut at the task counter.
    pub open spec fn tasks_by_status(self, status: TaskStatus, page: u32, page_size: u32) -> Result<
        Seq<TaskView>,
        ManagerError,
    > {
        let start = page * page_size;
        if start > u32::MAX || start + page_size > u32::MAX {
            Err(ManagerError::Overflow)
        } else {
            let stop = start + page_size;
            let end = if stop < self.task_counter {
                stop
            } else {
                self.task_counter as int
            };
            if start < end {
                Ok(self.tasks.subrange(start, end).filter(status_is(status)))
            } else {
                Ok(Seq::empty())
            }
        }
    }
}

} // verus!
