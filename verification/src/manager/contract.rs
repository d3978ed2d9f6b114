use crate::address::Address;
use crate::address_book::{AddressBook, entries_map, keys_distinct, lemma_entries_map_values};
use crate::fees::platform_fee;
use crate::manager::model::{
    ManagerError, ManagerState, ProfileView, Task, TaskReward, TaskStatus, TaskView, UserProfile,
    status_is, text_view, MAX_BIO_LEN, MAX_DESCRIPTION_LEN, MAX_TITLE_LEN, MAX_USERNAME_LEN,
    MIN_USERNAME_LEN, PAYMENT_REPUTATION,
};
use vstd::prelude::*;

verus! {

broadcast use vstd::seq_lib::group_seq_properties;

/// The workflow contract: an admin assigns tasks, assignees move them
/// through the workflow, the admin verifies them and releases payment, and
/// contributors keep profiles.
pub struct TaskManagerContract {
    admin: Option<Address>,
    platform_fee_bps: u32,
    paused: bool,
    task_counter: u32,
    tasks: Vec<Task>,
    rewards: Vec<TaskReward>,
    profiles: AddressBook<UserProfile>,
    user_tasks: Vec<(Address, u32)>,
}

impl View for TaskManagerContract {
    type V = ManagerState;

    closed spec fn view(&self) -> ManagerState {
        ManagerState {
            admin: self.admin,
            platform_fee_bps: self.platform_fee_bps,
            paused: self.paused,
            task_counter: self.task_counter,
            tasks: self.tasks@.map_values(|t: Task| t@),
            rewards: self.rewards@,
            profiles: self.profiles@.map_values(|p: UserProfile| p@),
            user_tasks: self.user_tasks@.to_set(),
        }
    }
}

/// `result` is what `step` prescribes for a request that took the contract
/// from `pre` to `post`; a refusal changes nothing.
pub open spec fn manager_answers(
    pre: ManagerState,
    post: ManagerState,
    step: Result<ManagerState, ManagerError>,
    result: Result<(), ManagerError>,
) -> bool {
    match result {
        Ok(()) => step == Ok::<ManagerState, ManagerError>(post),
        Err(e) => step == Err::<ManagerState, ManagerError>(e) && post == pre,
    }
}

/// The state that stored records describe: settings, tasks and payment
/// records by id, profiles by owner, and assignment links.
pub open spec fn stored_state(
    admin: Option<Address>,
    platform_fee_bps: u32,
    paused: bool,
    task_counter: u32,
    tasks: Seq<Task>,
    rewards: Seq<TaskReward>,
    profiles: Seq<(Address, UserProfile)>,
    user_tasks: Seq<(Address, u32)>,
) -> ManagerState {
    ManagerState {
        admin,
        platform_fee_bps,
        paused,
        task_counter,
        tasks: tasks.map_values(|t: Task| t@),
        rewards,
        profiles: entries_map(profiles).map_values(|p: UserProfile| p@),
        user_tasks: user_tasks.to_set(),
    }
}

/// Stored records can be taken up: they describe a reachable state, no
/// owner has two profiles, and each profile is filed under its own address.
pub open spec fn restorable(
    admin: Option<Address>,
    platform_fee_bps: u32,
    paused: bool,
    task_counter: u32,
    tasks: Seq<Task>,
    rewards: Seq<TaskReward>,
    profiles: Seq<(Address, UserProfile)>,
    user_tasks: Seq<(Address, u32)>,
) -> bool {
    &&& stored_state(
        admin,
        platform_fee_bps,
        paused,
        task_counter,
        tasks,
        rewards,
        profiles,
        user_tasks,
    ).inv()
    &&& keys_distinct(profiles)
    &&& forall|k: int| 0 <= k < profiles.len() ==> (#[trigger] profiles[k]).1.address == profiles[k].0
}

impl TaskManagerContract {
    pub closed spec fn wf(&self) -> bool {
        &&& self@.inv()
        &&& self.profiles.wf()
    }

    /// A well-formed contract is in a reachable state: its view meets the
    /// model's invariant, which the laws of the model assume.
    pub proof fn lemma_wf_gives_inv(&self)
        requires
            self.wf(),
        ensures
            self@.inv(),
    {
    }

    /// A freshly deployed contract.
    pub fn new() -> (contract: TaskManagerContract)
        ensures
            contract.wf(),
            contract@ == ManagerState::empty(),
    {
        let contract = TaskManagerContract {
            admin: None,
            platform_fee_bps: 0,
            paused: false,
            task_counter: 0,
            tasks: Vec::new(),
            rewards: Vec::new(),
            profiles: AddressBook::new(),
            user_tasks: Vec::new(),
        };
        proof {
            assert(contract@.tasks =~= Seq::<TaskView>::empty());
            assert(contract@.profiles =~= Map::<Address, ProfileView>::empty());
            assert(contract@.user_tasks =~= Set::<(Address, u32)>::empty());
        }
        contract
    }

    /// The contract holding the given records, or `None` when they cannot be
    /// taken up (see [`restorable`]).
    pub fn restore(
        admin: Option<Address>,
        platform_fee_bps: u32,
        paused: bool,
        task_counter: u32,
        tasks: Vec<Task>,
        rewards: Vec<TaskReward>,
        profiles: Vec<(Address, UserProfile)>,
        user_tasks: Vec<(Address, u32)>,
    ) -> (contract: Option<TaskManagerContract>)
        ensures
            contract matches Some(c) ==> c.wf() && c@ == stored_state(
                admin,
                platform_fee_bps,
                paused,
                task_counter,
                tasks@,
                rewards@,
                profiles@,
                user_tasks@,
            ),
            contract is Some <==> restorable(
                admin,
                platform_fee_bps,
                paused,
                task_counter,
                tasks@,
                rewards@,
                profiles@,
                user_tasks@,
            ),
    {
        let ghost state = stored_state(
            admin,
            platform_fee_bps,
            paused,
            task_counter,
            tasks@,
            rewards@,
            profiles@,
            user_tasks@,
        );
        if tasks.len() != rewards.len() || task_counter as usize > tasks.len() || tasks.len()
            > 0xffff_ffffusize {
            return None;
        }
        let mut i: usize = 0;
        while i < tasks.len()
            invariant
                i <= tasks.len() == rewards.len(),
                state == stored_state(
                    admin,
                    platform_fee_bps,
                    paused,
                    task_counter,
                    tasks@,
                    rewards@,
                    profiles@,
                    user_tasks@,
                ),
                forall|j: int| 0 <= j < i ==> state.task_ok(j, #[trigger] state.tasks[j]),
            decreases tasks.len() - i,
        {
            let task = &tasks[i];
            let record = rewards[i];
            proof {
                assert(state.tasks[i as int] == task@);
            }
            if task.id as usize != i || task.reward <= 0 || (task.status.assigned()
                && task.assignee.is_none()) || record.task_id as usize != i || record.amount
                != task.reward || (record.claimed && task.status != TaskStatus::Verified)
                || record.released_at.is_some() != record.claimed {
                return None;
            }
            i += 1;
        }
        let mut k: usize = 0;
        while k < profiles.len()
            invariant
                k <= profiles.len(),
                forall|j: int| 0 <= j < k ==> (#[trigger] profiles@[j]).1.address == profiles@[j].0,
                tasks.len() == rewards.len(),
                task_counter <= tasks.len() <= 0xffff_ffff,
                state == stored_state(
                    admin,
                    platform_fee_bps,
                    paused,
                    task_counter,
                    tasks@,
                    rewards@,
                    profiles@,
                    user_tasks@,
                ),
                forall|j: int| 0 <= j < tasks.len() ==> state.task_ok(j, #[trigger] state.tasks[j]),
            decreases profiles.len() - k,
        {
            if profiles[k].0 != profiles[k].1.address {
                return None;
            }
            k += 1;
        }
        let ghost entries = profiles@;
        let book = match AddressBook::from_entries(profiles) {
            Some(b) => b,
            None => return None,
        };
        let contract = TaskManagerContract {
            admin,
            platform_fee_bps,
            paused,
            task_counter,
            tasks,
            rewards,
            profiles: book,
            user_tasks,
        };
        proof {
            assert forall|a: Address| #[trigger] state.profiles.contains_key(a) implies state.profiles[a].address
                == a by {
                lemma_entries_map_values(entries, a);
            }
            assert(contract@ == state);
        }
        Some(contract)
    }

    /// Sets the admin and the platform fee, resets the task counter and
    /// unpauses; refused once there is an admin.
    pub fn initialize(&mut self, admin: Address, platform_fee_bps: u32) -> (result: Result<
        (),
        ManagerError,
    >)
        requires
            old(self).wf(),
        ensures
            final(self).wf(),
            manager_answers(
                old(self)@,
                final(self)@,
                old(self)@.initialize(admin, platform_fee_bps),
                result,
            ),
    {
        if self.admin.is_some() {
            return Err(ManagerError::AlreadyInitialized);
        }
        self.admin = Some(admin);
        self.platform_fee_bps = platform_fee_bps;
        self.task_counter = 0;
        self.paused = false;
        Ok(())
    }

    /// Whether new tasks are refused.
    pub fn is_paused(&self) -> (paused: bool)
        ensures
            paused == self@.paused,
    {
        self.paused
    }

    /// Whether `address` is the admin; refused before initialization.
    fn is_admin(&self, address: Address) -> (result: Result<bool, ManagerError>)
        ensures
            result == (match self@.admin {
                Some(admin) => Ok::<bool, ManagerError>(admin == address),
                None => Err(ManagerError::NotInitialized),
            }),
    {
        match self.admin {
            Some(admin) => Ok(admin == address),
            None => Err(ManagerError::NotInitialized),
        }
    }

    /// Refuses unless `admin` is the admin.
    fn require_admin(&self, admin: Address) -> (result: Result<(), ManagerError>)
        ensures
            result == self@.require_admin(admin),
    {
        match self.admin {
            None => Err(ManagerError::NotInitialized),
            Some(stored) => if stored != admin {
                Err(ManagerError::NotAuthorized)
            } else {
                Ok(())
            },
        }
    }

    /// Creates a task under the next id and returns the id. Refused while
    /// paused, for a reward that is not positive, a title that is empty or
    /// longer than 100 bytes, or a description longer than 5000 bytes.
    pub fn create_task(
        &mut self,
        creator: Address,
        title: Vec<u8>,
        description: Vec<u8>,
        reward: i128,
        deadline: Option<u64>,
        tags: Vec<Vec<u8>>,
        now: u64,
    ) -> (result: Result<u32, ManagerError>)
        requires
            old(self).wf(),
        ensures
            final(self).wf(),
            match result {
                Ok(task_id) => old(self)@.create_task(
                    creator,
                    title@,
                    description@,
                    reward,
                    deadline,
                    tags.deep_view(),
                    now,
                ) == Ok::<(ManagerState, u32), ManagerError>((final(self)@, task_id)),
                Err(e) => old(self)@.create_task(
                    creator,
                    title@,
                    description@,
                    reward,
                    deadline,
                    tags.deep_view(),
                    now,
                ) == Err::<(ManagerState, u32), ManagerError>(e) && final(self)@ == old(self)@,
            },
    {
        if self.is_paused() {
            return Err(ManagerError::Paused);
        }
        if reward <= 0 {
            return Err(ManagerError::RewardNotPositive);
        }
        if title.len() == 0 || title.len() > MAX_TITLE_LEN {
            return Err(ManagerError::InvalidTitle);
        }
        if description.len() > MAX_DESCRIPTION_LEN {
            return Err(ManagerError::DescriptionTooLong);
        }
        let task_id = self.task_counter;
        let next = match task_id.checked_add(1) {
            Some(n) => n,
            None => return Err(ManagerError::Overflow),
        };
        let task = Task {
            id: task_id,
            title,
            description,
            reward,
            assignee: None,
            status: TaskStatus::Open,
            created_by: creator,
            created_at: now,
            deadline,
            tags,
        };
        let ghost tv = task@;
        let record = TaskReward { task_id, amount: reward, claimed: false, released_at: None };
        let i = task_id as usize;
        if i < self.tasks.len() {
            self.tasks.set(i, task);
            self.rewards.set(i, record);
            proof {
                assert(self@.tasks =~= old(self)@.tasks.update(i as int, tv));
            }
        } else {
            self.tasks.push(task);
            self.rewards.push(record);
            proof {
                assert(self@.tasks =~= old(self)@.tasks.push(tv));
            }
        }
        self.task_counter = next;
        Ok(task_id)
    }

    /// The admin gives an open task to `assignee`.
    pub fn assign_task(&mut self, admin: Address, task_id: u32, assignee: Address) -> (result:
        Result<(), ManagerError>)
        requires
            old(self).wf(),
        ensures
            final(self).wf(),
            manager_answers(
                old(self)@,
                final(self)@,
                old(self)@.assign_task(admin, task_id, assignee),
                result,
            ),
    {
        if let Err(e) = self.require_admin(admin) {
            return Err(e);
        }
        let i = task_id as usize;
        if i >= self.tasks.len() {
            return Err(ManagerError::TaskNotFound);
        }
        if self.tasks[i].status != TaskStatus::Open {
            return Err(ManagerError::TaskNotOpen);
        }
        self.tasks[i].assignee = Some(assignee);
        self.tasks[i].status = TaskStatus::Assigned;
        self.user_tasks.push((assignee, task_id));
        proof {
            let task = old(self)@.tasks[i as int];
            assert(self@.tasks =~= old(self)@.tasks.update(
                i as int,
                TaskView { assignee: Some(assignee), status: TaskStatus::Assigned, ..task },
            ));
            assert(self@.user_tasks =~= old(self)@.user_tasks.insert((assignee, task_id)));
        }
        Ok(())
    }

    /// Moves a task along the workflow: its assignee starts it and completes
    /// it, the admin verifies it, and its creator or the admin cancels it
    /// unless it is completed or verified.
    pub fn update_task_status(&mut self, caller: Address, task_id: u32, new_status: TaskStatus) -> (result:
        Result<(), ManagerError>)
        requires
            old(self).wf(),
        ensures
            final(self).wf(),
            manager_answers(
                old(self)@,
                final(self)@,
                old(self)@.update_task_status(caller, task_id, new_status),
                result,
            ),
    {
        let i = task_id as usize;
        if i >= self.tasks.len() {
            return Err(ManagerError::TaskNotFound);
        }
        let status = self.tasks[i].status;
        let assignee = self.tasks[i].assignee;
        let created_by = self.tasks[i].created_by;
        match new_status {
            TaskStatus::InProgress => {
                if Some(caller) != assignee {
                    return Err(ManagerError::NotAssigneeToStart);
                }
                if status != TaskStatus::Assigned {
                    return Err(ManagerError::NotAssigned);
                }
            },
            TaskStatus::Completed => {
                if Some(caller) != assignee {
                    return Err(ManagerError::NotAssigneeToComplete);
                }
                if status != TaskStatus::InProgress {
                    return Err(ManagerError::NotInProgress);
                }
            },
            TaskStatus::Verified => {
                if let Err(e) = self.require_admin(caller) {
                    return Err(e);
                }
                if status != TaskStatus::Completed {
                    return Err(ManagerError::NotCompleted);
                }
            },
            TaskStatus::Cancelled => {
                if caller != created_by {
                    match self.is_admin(caller) {
                        Err(e) => return Err(e),
                        Ok(false) => return Err(ManagerError::NotCreatorOrAdmin),
                        Ok(true) => {},
                    }
                }
                if status == TaskStatus::Completed || status == TaskStatus::Verified {
                    return Err(ManagerError::CannotCancelCompleted);
                }
            },
            _ => {
                return Err(ManagerError::InvalidTransition);
            },
        }
        self.tasks[i].status = new_status;
        proof {
            assert(self@.tasks =~= old(self)@.tasks.update(
                i as int,
                old(self)@.tasks[i as int].with_status(new_status),
            ));
        }
        Ok(())
    }

    /// Adds `points` to the reputation of `user`'s profile and counts one
    /// more completed task, if the user has a profile.
    fn update_user_reputation(&mut self, user: Address, points: u32) -> (result: Result<
        (),
        ManagerError,
    >)
        requires
            old(self).wf(),
        ensures
            final(self).wf(),
            manager_answers(
                old(self)@,
                final(self)@,
                old(self)@.update_user_reputation(user, points),
                result,
            ),
    {
        match self.profiles.get(&user) {
            None => {
                return Ok(());
            },
            Some(profile) => {
                if profile.reputation.checked_add(points).is_none()
                    || profile.completed_tasks.checked_add(1).is_none() {
                    return Err(ManagerError::Overflow);
                }
            },
        }
        let mut profile = self.profiles.remove(&user).unwrap();
        profile.reputation = profile.reputation + points;
        profile.completed_tasks = profile.completed_tasks + 1;
        let ghost pv = profile@;
        self.profiles.insert(user, profile);
        assert(self@.profiles =~= old(self)@.profiles.insert(user, pv));
        Ok(())
    }

    /// The admin releases the payment of a verified task: its payment record
    /// is marked claimed at `now` and the assignee's profile, if any, gains
    /// reputation and a completed task. No tokens move.
    pub fn release_payment(&mut self, admin: Address, task_id: u32, now: u64) -> (result: Result<
        (),
        ManagerError,
    >)
        requires
            old(self).wf(),
        ensures
            final(self).wf(),
            manager_answers(
                old(self)@,
                final(self)@,
                old(self)@.release_payment(admin, task_id, now),
                result,
            ),
    {
        if let Err(e) = self.require_admin(admin) {
            return Err(e);
        }
        let i = task_id as usize;
        if i >= self.tasks.len() {
            return Err(ManagerError::TaskNotFound);
        }
        if self.tasks[i].status != TaskStatus::Verified {
            return Err(ManagerError::NotVerified);
        }
        let record = self.rewards[i];
        if record.claimed {
            return Err(ManagerError::AlreadyReleased);
        }
        let reward = self.tasks[i].reward;
        assert(reward > 0) by {
            assert(old(self)@.tasks[i as int].reward > 0);
        }
        if platform_fee(reward, self.platform_fee_bps).is_none() {
            return Err(ManagerError::Overflow);
        }
        let assignee = match self.tasks[i].assignee {
            Some(a) => a,
            None => return Err(ManagerError::NoAssignee),
        };
        let ghost released = ManagerState {
            rewards: old(self)@.rewards.update(
                i as int,
                TaskReward { claimed: true, released_at: Some(now), ..record },
            ),
            ..old(self)@
        };
        if let Err(e) = self.update_user_reputation(assignee, PAYMENT_REPUTATION) {
            return Err(e);
        }
        let ghost after_reputation = self@;
        self.rewards.set(i, TaskReward { claimed: true, released_at: Some(now), ..record });
        proof {
            assert(self@.rewards =~= released.rewards);
            assert(self@ == ManagerState { rewards: released.rewards, ..after_reputation });
        }
        Ok(())
    }

    /// Creates or updates `user`'s profile: a new profile starts with no
    /// reputation, no completed tasks and `now` as its joining time; a given
    /// username (3 to 30 bytes) or bio (at most 500 bytes) replaces the
    /// stored one.
    pub fn upsert_user_profile(
        &mut self,
        user: Address,
        username: Option<Vec<u8>>,
        bio: Option<Vec<u8>>,
        now: u64,
    ) -> (result: Result<(), ManagerError>)
        requires
            old(self).wf(),
        ensures
            final(self).wf(),
            manager_answers(
                old(self)@,
                final(self)@,
                old(self)@.upsert_user_profile(user, text_view(username), text_view(bio), now),
                result,
            ),
    {
        if let Some(name) = &username {
            if name.len() < MIN_USERNAME_LEN || name.len() > MAX_USERNAME_LEN {
                return Err(ManagerError::InvalidUsername);
            }
        }
        if let Some(text) = &bio {
            if text.len() > MAX_BIO_LEN {
                return Err(ManagerError::BioTooLong);
            }
        }
        let mut profile = match self.profiles.remove(&user) {
            Some(p) => p,
            None => UserProfile {
                address: user,
                username: None,
                reputation: 0,
                completed_tasks: 0,
                joined_at: now,
                bio: None,
            },
        };
        if username.is_some() {
            profile.username = username;
        }
        if bio.is_some() {
            profile.bio = bio;
        }
        let ghost pv = profile@;
        self.profiles.insert(user, profile);
        proof {
            assert(self@.profiles =~= old(self)@.profiles.insert(user, pv));
        }
        Ok(())
    }

    /// A copy of task `task_id`, if it is stored.
    pub fn get_task(&self, task_id: u32) -> (task: Option<Task>)
        ensures
            match task {
                Some(t) => self@.has_task(task_id) && t@ == self@.tasks[task_id as int],
                None => !self@.has_task(task_id),
            },
    {
        let i = task_id as usize;
        if i < self.tasks.len() {
            Some(self.tasks[i].duplicate())
        } else {
            None
        }
    }

    /// A copy of `user`'s profile, if there is one.
    pub fn get_user_profile(&self, user: Address) -> (profile: Option<UserProfile>)
        requires
            self.wf(),
        ensures
            match profile {
                Some(p) => self@.profiles.contains_key(user) && p@ == self@.profiles[user],
                None => !self@.profiles.contains_key(user),
            },
    {
        match self.profiles.get(&user) {
            Some(p) => Some(p.duplicate()),
            None => None,
        }
    }

    /// The admin pauses or resumes task creation.
    pub fn set_paused(&mut self, admin: Address, paused: bool) -> (result: Result<
        (),
        ManagerError,
    >)
        requires
            old(self).wf(),
        ensures
            final(self).wf(),
            manager_answers(old(self)@, final(self)@, old(self)@.set_paused(admin, paused), result),
    {
        if let Err(e) = self.require_admin(admin) {
            return Err(e);
        }
        self.paused = paused;
        Ok(())
    }

    /// Copies of the tasks on page `page` (of `page_size` ids each, up to the
    /// task counter) that have `status`, in id order.
    pub fn get_tasks_by_status(&self, status: TaskStatus, page: u32, page_size: u32) -> (result:
        Result<Vec<Task>, ManagerError>)
        requires
            self.wf(),
        ensures
            match result {
                Ok(tasks) => self@.tasks_by_status(status, page, page_size) == Ok::<
                    Seq<TaskView>,
                    ManagerError,
                >(tasks@.map_values(|t: Task| t@)),
                Err(e) => self@.tasks_by_status(status, page, page_size) == Err::<
                    Seq<TaskView>,
                    ManagerError,
                >(e),
            },
    {
        let counter = self.task_counter;
        let start = match page.checked_mul(page_size) {
            Some(s) => s,
            None => return Err(ManagerError::Overflow),
        };
        let stop = match start.checked_add(page_size) {
            Some(s) => s,
            None => return Err(ManagerError::Overflow),
        };
        let end = if stop < counter {
            stop
        } else {
            counter
        };
        let mut found: Vec<Task> = Vec::new();
        if start >= end {
            proof {
                assert(found@.map_values(|t: Task| t@) =~= Seq::<TaskView>::empty());
            }
            return Ok(found);
        }
        let ghost all = self@.tasks;
        let mut id = start;
        proof {
            assert(all.subrange(start as int, start as int) =~= Seq::<TaskView>::empty());
            reveal(Seq::filter);
            assert(found@.map_values(|t: Task| t@) =~= all.subrange(start as int, start as int).filter(
                status_is(status),
            ));
        }
        while id < end
            invariant
                self.wf(),
                all == self@.tasks,
                start <= id <= end,
                end <= self@.task_counter <= all.len(),
                found@.map_values(|t: Task| t@) == all.subrange(start as int, id as int).filter(
                    status_is(status),
                ),
            decreases end - id,
        {
            let i = id as usize;
            let ghost before = found@.map_values(|t: Task| t@);
            proof {
                assert(all.subrange(start as int, id + 1) =~= all.subrange(start as int, id as int).push(
                    all[id as int],
                ));
                all.subrange(start as int, id as int).lemma_filter_push(all[id as int], status_is(status));
            }
            if self.tasks[i].status == status {
                found.push(self.tasks[i].duplicate());
                proof {
                    assert(found@.map_values(|t: Task| t@) =~= before.push(all[id as int]));
                }
            }
            id = id + 1;
        }
        Ok(found)
    }

    /// Whether the link from `user` to task `task_id` was recorded on
    /// assignment; if so, the task id.
    pub fn user_task(&self, user: Address, task_id: u32) -> (linked: Option<u32>)
        ensures
            linked == (if self@.user_tasks.contains((user, task_id)) {
                Some(task_id)
            } else {
                None
            }),
    {
        let mut i: usize = 0;
        while i < self.user_tasks.len()
            invariant
                i <= self.user_tasks.len(),
                forall|j: int| 0 <= j < i ==> self.user_tasks@[j] != (user, task_id),
            decreases self.user_tasks.len() - i,
        {
            let (u, t) = self.user_tasks[i];
            if u == user && t == task_id {
                proof {
                    assert(self.user_tasks@.contains((user, task_id)));
                }
                return Some(task_id);
            }
            i += 1;
        }
        None
    }

    /// The payment record of task `task_id`, if it is stored.
    pub fn get_task_reward(&self, task_id: u32) -> (record: Option<TaskReward>)
        requires
            self.wf(),
        ensures
            record == (if self@.has_task(task_id) {
                Some(self@.rewards[task_id as int])
            } else {
                None
            }),
    {
        let i = task_id as usize;
        if i < self.rewards.len() {
            Some(self.rewards[i])
        } else {
            None
        }
    }

    /// The admin, once initialized.
    pub fn get_admin(&self) -> (admin: Option<Address>)
        ensures
            admin == self@.admin,
    {
        self.admin
    }

    /// The platform fee in basis points; zero before initialization.
    pub fn get_platform_fee(&self) -> (bps: u32)
        ensures
            bps == self@.platform_fee_bps,
    {
        self.platform_fee_bps
    }

    /// The id the next task gets.
    pub fn get_task_counter(&self) -> (counter: u32)
        ensures
            counter == self@.task_counter,
    {
        self.task_counter
    }
}

} // verus!
