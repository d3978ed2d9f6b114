use crate::address::Address;
use crate::fees::platform_fee;
use crate::pro::model::{ProConfig, ProError, ProEvent, ProState, ProStep, Task, TaskStatus, TaskView, Transfer};
use vstd::prelude::*;

verus! {

/// The escrow contract: tasks whose rewards are locked when they are
/// created and paid out, less a platform fee, when they are verified.
pub struct TaskManagerPro {
    config: Option<ProConfig>,
    tasks: Vec<Task>,
    escrow: Vec<Option<i128>>,
}

/// What an accepted request on a task hands back: the token movements to
/// carry out, in order, and the event to announce.
pub struct Receipt {
    pub transfers: Vec<Transfer>,
    pub event: ProEvent,
}

/// `reply` is the answer that `step` prescribes for a request that took the
/// contract from `pre` to `post`: on acceptance the next state, transfers
/// and event are those of `step`; on refusal the error is, and nothing
/// changed.
pub open spec fn answers(
    pre: ProState,
    post: ProState,
    step: ProStep,
    reply: Result<Receipt, ProError>,
) -> bool {
    match reply {
        Ok(receipt) => step == Ok::<(ProState, Seq<Transfer>, ProEvent), ProError>(
            (post, receipt.transfers@, receipt.event),
        ),
        Err(e) => step == Err::<(ProState, Seq<Transfer>, ProEvent), ProError>(e) && post == pre,
    }
}

impl View for TaskManagerPro {
    type V = ProState;

    closed spec fn view(&self) -> ProState {
        ProState {
            config: self.config,
            tasks: self.tasks@.map_values(|t: Task| t@),
            escrow: self.escrow@,
        }
    }
}

impl TaskManagerPro {
    /// The contract's state is reachable.
    pub open spec fn wf(&self) -> bool {
        self@.inv()
    }

    /// A freshly deployed contract, not yet initialized.
    pub fn new() -> (contract: TaskManagerPro)
        ensures
            contract@ == ProState::empty(),
            contract.wf(),
    {
        let contract = TaskManagerPro { config: None, tasks: Vec::new(), escrow: Vec::new() };
        assert(contract@.tasks =~= Seq::<TaskView>::empty());
        contract
    }

    /// The contract holding the given settings, tasks and escrow entries, or
    /// `None` when they are not a state the contract can reach.
    pub fn restore(config: Option<ProConfig>, tasks: Vec<Task>, escrow: Vec<Option<i128>>) -> (contract:
        Option<TaskManagerPro>)
        ensures
            contract matches Some(c) ==> c.wf() && c@ == (ProState {
                config,
                tasks: tasks@.map_values(|t: Task| t@),
                escrow: escrow@,
            }),
            contract is None ==> !(ProState {
                config,
                tasks: tasks@.map_values(|t: Task| t@),
                escrow: escrow@,
            }).inv(),
    {
        let ghost state = ProState {
            config,
            tasks: tasks@.map_values(|t: Task| t@),
            escrow: escrow@,
        };
        if tasks.len() != escrow.len() || tasks.len() > 0xffff_ffffusize {
            return None;
        }
        if tasks.len() > 0 && config.is_none() {
            return None;
        }
        let mut i: usize = 0;
        while i < tasks.len()
            invariant
                i <= tasks.len() == escrow.len(),
                state == (ProState {
                    config,
                    tasks: tasks@.map_values(|t: Task| t@),
                    escrow: escrow@,
                }),
                forall|j: int| 0 <= j < i ==> state.task_ok(j, #[trigger] state.tasks[j]),
            decreases tasks.len() - i,
        {
            let task = &tasks[i];
            proof {
                assert(state.tasks[i as int] == task@);
            }
            let escrow_ok = match escrow[i] {
                Some(amount) => task.status.escrow_held() && amount == task.reward,
                None => !task.status.escrow_held(),
            };
            let unassigned = task.status == TaskStatus::Open || task.status == TaskStatus::Cancelled;
            if task.id as usize != i || task.reward <= 0 || !escrow_ok || task.assignee.is_some()
                == unassigned {
                proof {
                    assert(state.tasks[i as int] == task@);
                    assert(state.escrow[i as int] == escrow@[i as int]);
                }
                return None;
            }
            i += 1;
        }
        let contract = TaskManagerPro { config, tasks, escrow };
        proof {
            assert(contract@ == state);
        }
        Some(contract)
    }

    /// Sets the admin, the platform fee in basis points, the token and the
    /// fee recipient; refused once the contract has been initialized.
    pub fn initialize(
        &mut self,
        admin: Address,
        platform_fee_bps: u32,
        token_contract: Address,
        fee_recipient: Address,
    ) -> (result: Result<(), ProError>)
        requires
            old(self).wf(),
        ensures
            final(self).wf(),
            match result {
                Ok(()) => old(self)@.initialize(admin, platform_fee_bps, token_contract, fee_recipient)
                    == Ok::<ProState, ProError>(final(self)@),
                Err(e) => old(self)@.initialize(admin, platform_fee_bps, token_contract, fee_recipient)
                    == Err::<ProState, ProError>(e) && final(self)@ == old(self)@,
            },
    {
        if self.config.is_some() {
            return Err(ProError::AlreadyInitialized);
        }
        self.config = Some(ProConfig { admin, platform_fee_bps, token_contract, fee_recipient });
        Ok(())
    }

    /// Creates a task funded by `creator`: its reward moves into escrow and
    /// it gets the next id, which is returned.
    pub fn create_task(
        &mut self,
        creator: Address,
        title: Vec<u8>,
        description: Vec<u8>,
        reward: i128,
        tags: Vec<Vec<u8>>,
    ) -> (result: Result<(u32, Receipt), ProError>)
        requires
            old(self).wf(),
        ensures
            final(self).wf(),
            answers(
                old(self)@,
                final(self)@,
                old(self)@.create_task(creator, title@, description@, reward, tags.deep_view()),
                match result {
                    Ok((_, receipt)) => Ok(receipt),
                    Err(e) => Err(e),
                },
            ),
            result matches Ok((task_id, _)) ==> task_id == old(self)@.tasks.len(),
    {
        if reward <= 0 {
            return Err(ProError::RewardNotPositive);
        }
        if self.config.is_none() {
            return Err(ProError::NotInitialized);
        }
        if self.tasks.len() >= 0xffff_ffffusize {
            return Err(ProError::Overflow);
        }
        let task_id = self.tasks.len() as u32;
        let task = Task {
            id: task_id,
            title,
            description,
            reward,
            assignee: None,
            status: TaskStatus::Open,
            created_by: creator,
            tags,
        };
        self.tasks.push(task);
        self.escrow.push(Some(reward));
        let mut transfers = Vec::new();
        transfers.push(Transfer::Deposit { from: creator, amount: reward });
        proof {
            assert(self@.tasks =~= old(self)@.tasks.push(task@));
            assert(transfers@ =~= seq![Transfer::Deposit { from: creator, amount: reward }]);
        }
        Ok((task_id, Receipt { transfers, event: ProEvent::TaskCreated { task_id } }))
    }

    /// `assignee` takes an open task, which moves into progress.
    pub fn assign_task(&mut self, assignee: Address, task_id: u32) -> (result: Result<
        Receipt,
        ProError,
    >)
        requires
            old(self).wf(),
        ensures
            final(self).wf(),
            answers(old(self)@, final(self)@, old(self)@.assign_task(assignee, task_id), result),
    {
        let i = task_id as usize;
        if i >= self.tasks.len() {
            return Err(ProError::TaskNotFound);
        }
        if self.tasks[i].status != TaskStatus::Open {
            return Err(ProError::TaskNotOpen);
        }
        self.tasks[i].assignee = Some(assignee);
        self.tasks[i].status = TaskStatus::InProgress;
        proof {
            let task = old(self)@.tasks[i as int];
            assert(self@.tasks =~= old(self)@.tasks.update(
                i as int,
                TaskView { assignee: Some(assignee), status: TaskStatus::InProgress, ..task },
            ));
        }
        Ok(Receipt { transfers: Vec::new(), event: ProEvent::TaskAssigned { task_id, assignee } })
    }

    /// The assignee hands in the work; the task moves to completed and waits
    /// for verification. The delivery link is not stored.
    pub fn submit_work(&mut self, assignee: Address, task_id: u32, delivery_url: Vec<u8>) -> (result:
        Result<Receipt, ProError>)
        requires
            old(self).wf(),
        ensures
            final(self).wf(),
            answers(old(self)@, final(self)@, old(self)@.submit_work(assignee, task_id), result),
    {
        let i = task_id as usize;
        if i >= self.tasks.len() {
            return Err(ProError::TaskNotFound);
        }
        if self.tasks[i].status != TaskStatus::InProgress {
            return Err(ProError::TaskNotInProgress);
        }
        if self.tasks[i].assignee != Some(assignee) {
            return Err(ProError::NotAssignee);
        }
        self.tasks[i].status = TaskStatus::Completed;
        proof {
            assert(self@.tasks =~= old(self)@.tasks.update(
                i as int,
                old(self)@.tasks[i as int].with_status(TaskStatus::Completed),
            ));
        }
        Ok(Receipt { transfers: Vec::new(), event: ProEvent::WorkSubmitted { task_id, assignee } })
    }

    /// The task's creator or the admin verifies completed work: the escrowed
    /// reward goes to the assignee less the platform fee, which goes to the
    /// fee recipient.
    pub fn complete_task(&mut self, caller: Address, task_id: u32) -> (result: Result<
        Receipt,
        ProError,
    >)
        requires
            old(self).wf(),
        ensures
            final(self).wf(),
            answers(old(self)@, final(self)@, old(self)@.complete_task(caller, task_id), result),
    {
        let i = task_id as usize;
        if i >= self.tasks.len() {
            return Err(ProError::TaskNotFound);
        }
        let config = match self.config {
            Some(c) => c,
            None => return Err(ProError::NotInitialized),
        };
        let created_by = self.tasks[i].created_by;
        let status = self.tasks[i].status;
        let task_assignee = self.tasks[i].assignee;
        let reward = self.tasks[i].reward;
        if caller != created_by && caller != config.admin {
            return Err(ProError::NotAdminOrCreator);
        }
        if status != TaskStatus::Completed {
            return Err(ProError::TaskNotCompleted);
        }
        let assignee = match task_assignee {
            Some(a) => a,
            None => return Err(ProError::NoAssignee),
        };
        assert(reward > 0) by {
            assert(old(self)@.tasks[i as int].reward > 0);
        }
        let fee = match platform_fee(reward, config.platform_fee_bps) {
            Some(f) => f,
            None => return Err(ProError::Overflow),
        };
        let mut transfers = Vec::new();
        transfers.push(Transfer::Payout { to: assignee, amount: reward - fee });
        if fee > 0 {
            transfers.push(Transfer::Payout { to: config.fee_recipient, amount: fee });
        }
        self.tasks[i].status = TaskStatus::Verified;
        self.escrow.set(i, None);
        proof {
            assert(self@.tasks =~= old(self)@.tasks.update(
                i as int,
                old(self)@.tasks[i as int].with_status(TaskStatus::Verified),
            ));
            assert(transfers@ =~= ProState::fee_split(config, assignee, reward));
        }
        Ok(Receipt { transfers, event: ProEvent::TaskVerified { task_id, reward } })
    }

    /// The creator withdraws an open task and gets its reward back.
    pub fn cancel_task(&mut self, creator: Address, task_id: u32) -> (result: Result<
        Receipt,
        ProError,
    >)
        requires
            old(self).wf(),
        ensures
            final(self).wf(),
            answers(old(self)@, final(self)@, old(self)@.cancel_task(creator, task_id), result),
    {
        let i = task_id as usize;
        if i >= self.tasks.len() {
            return Err(ProError::TaskNotFound);
        }
        if self.tasks[i].created_by != creator {
            return Err(ProError::NotCreator);
        }
        if self.tasks[i].status != TaskStatus::Open {
            return Err(ProError::NotCancellable);
        }
        if self.config.is_none() {
            return Err(ProError::NotInitialized);
        }
        let reward = self.tasks[i].reward;
        let mut transfers = Vec::new();
        transfers.push(Transfer::Payout { to: creator, amount: reward });
        self.tasks[i].status = TaskStatus::Cancelled;
        self.escrow.set(i, None);
        proof {
            assert(self@.tasks =~= old(self)@.tasks.update(
                i as int,
                old(self)@.tasks[i as int].with_status(TaskStatus::Cancelled),
            ));
            assert(transfers@ =~= seq![Transfer::Payout { to: creator, amount: reward }]);
        }
        Ok(Receipt { transfers, event: ProEvent::TaskCancelled { task_id, reward } })
    }

    /// The creator or the assignee raises a dispute on a task in progress or
    /// awaiting verification.
    pub fn dispute_task(&mut self, caller: Address, task_id: u32) -> (result: Result<
        Receipt,
        ProError,
    >)
        requires
            old(self).wf(),
        ensures
            final(self).wf(),
            answers(old(self)@, final(self)@, old(self)@.dispute_task(caller, task_id), result),
    {
        let i = task_id as usize;
        if i >= self.tasks.len() {
            return Err(ProError::TaskNotFound);
        }
        if caller != self.tasks[i].created_by && Some(caller) != self.tasks[i].assignee {
            return Err(ProError::NotCreatorOrAssignee);
        }
        if self.tasks[i].status != TaskStatus::InProgress && self.tasks[i].status
            != TaskStatus::Completed {
            return Err(ProError::NotDisputable);
        }
        self.tasks[i].status = TaskStatus::Disputed;
        proof {
            assert(self@.tasks =~= old(self)@.tasks.update(
                i as int,
                old(self)@.tasks[i as int].with_status(TaskStatus::Disputed),
            ));
        }
        Ok(Receipt { transfers: Vec::new(), event: ProEvent::TaskDisputed { task_id, caller } })
    }

    /// The admin settles a disputed task by splitting its reward between a
    /// refund to the creator and a payout to the assignee, neither negative;
    /// the payout bears the platform fee.
    pub fn resolve_dispute(
        &mut self,
        admin: Address,
        task_id: u32,
        creator_refund: i128,
        assignee_payout: i128,
    ) -> (result: Result<Receipt, ProError>)
        requires
            old(self).wf(),
        ensures
            final(self).wf(),
            answers(
                old(self)@,
                final(self)@,
                old(self)@.resolve_dispute(admin, task_id, creator_refund, assignee_payout),
                result,
            ),
    {
        let config = match self.config {
            Some(c) => c,
            None => return Err(ProError::NotInitialized),
        };
        if admin != config.admin {
            return Err(ProError::NotAdmin);
        }
        let i = task_id as usize;
        if i >= self.tasks.len() {
            return Err(ProError::TaskNotFound);
        }
        let created_by = self.tasks[i].created_by;
        let status = self.tasks[i].status;
        let task_assignee = self.tasks[i].assignee;
        let reward = self.tasks[i].reward;
        if status != TaskStatus::Disputed {
            return Err(ProError::TaskNotDisputed);
        }
        let sum = match creator_refund.checked_add(assignee_payout) {
            Some(s) => s,
            None => return Err(ProError::Overflow),
        };
        if sum != reward {
            return Err(ProError::SplitMismatch);
        }
        if creator_refund < 0 || assignee_payout < 0 {
            return Err(ProError::NegativeShare);
        }
        let ghost task = old(self)@.tasks[i as int];
        let mut transfers = Vec::new();
        if creator_refund > 0 {
            transfers.push(Transfer::Payout { to: created_by, amount: creator_refund });
        }
        if assignee_payout > 0 {
            let assignee = match task_assignee {
                Some(a) => a,
                None => return Err(ProError::NoAssignee),
            };
            let fee = match platform_fee(assignee_payout, config.platform_fee_bps) {
                Some(f) => f,
                None => return Err(ProError::Overflow),
            };
            let net = assignee_payout - fee;
            if net > 0 {
                transfers.push(Transfer::Payout { to: assignee, amount: net });
            }
            if fee > 0 {
                transfers.push(Transfer::Payout { to: config.fee_recipient, amount: fee });
            }
        }
        self.tasks[i].status = TaskStatus::Verified;
        self.escrow.set(i, None);
        proof {
            assert(self@.tasks =~= old(self)@.tasks.update(
                i as int,
                old(self)@.tasks[i as int].with_status(TaskStatus::Verified),
            ));
            assert(transfers@ =~= ProState::settlement(config, task, creator_refund, assignee_payout));
        }
        Ok(Receipt { transfers, event: ProEvent::DisputeResolved { task_id, total_reward: reward } })
    }

    /// The admin, once initialized.
    pub fn get_admin(&self) -> (admin: Option<Address>)
        ensures
            admin == (match self@.config {
                Some(c) => Some(c.admin),
                None => None::<Address>,
            }),
    {
        match self.config {
            Some(c) => Some(c.admin),
            None => None,
        }
    }

    /// The token in which rewards are escrowed, once initialized.
    pub fn get_token_contract(&self) -> (token: Option<Address>)
        ensures
            token == (match self@.config {
                Some(c) => Some(c.token_contract),
                None => None::<Address>,
            }),
    {
        match self.config {
            Some(c) => Some(c.token_contract),
            None => None,
        }
    }

    /// The platform fee in basis points; zero before initialization.
    pub fn get_platform_fee(&self) -> (bps: u32)
        ensures
            bps == (match self@.config {
                Some(c) => c.platform_fee_bps,
                None => 0,
            }),
    {
        match self.config {
            Some(c) => c.platform_fee_bps,
            None => 0,
        }
    }

    /// The recipient of platform fees, once initialized.
    pub fn get_fee_recipient(&self) -> (recipient: Option<Address>)
        ensures
            recipient == (match self@.config {
                Some(c) => Some(c.fee_recipient),
                None => None::<Address>,
            }),
    {
        match self.config {
            Some(c) => Some(c.fee_recipient),
            None => None,
        }
    }

    /// A copy of task `task_id`, if there is one.
    pub fn get_task(&self, task_id: u32) -> (task: Option<Task>)
        ensures
            match task {
                Some(t) => self@.has_task(task_id) && t@ == self@.tasks[task_id as int],
                None => !self@.has_task(task_id),
            },
    {
        let i = task_id as usize;
        if i < self.tasks.len() {
            Some(self.tasks[i].duplicate())
        } else {
            None
        }
    }

    /// The number of tasks created so far, which is also the next task id.
    pub fn get_task_count(&self) -> (count: u32)
        requires
            self.wf(),
        ensures
            count == self@.tasks.len(),
    {
        self.tasks.len() as u32
    }

    /// The escrow entry of task `task_id`: the reward held for it, if any.
    pub fn get_escrow_balance(&self, task_id: u32) -> (balance: Option<i128>)
        requires
            self.wf(),
        ensures
            balance == (if self@.has_task(task_id) {
                self@.escrow[task_id as int]
            } else {
                None
            }),
    {
        let i = task_id as usize;
        if i < self.escrow.len() {
            self.escrow[i]
        } else {
            None
        }
    }
}

} // verus!
