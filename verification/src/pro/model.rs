use crate::address::Address;
use crate::fees::{fee_computable, fee_of};
use crate::text::{copy_byte_lists, copy_bytes};
use vstd::prelude::*;

verus! {

/// Where an escrowed task stands.
#[derive(Clone, Copy, PartialEq, Eq, Debug, Structural)]
pub enum TaskStatus {
    Open,
    InProgress,
    Completed,
    Disputed,
    Verified,
    Cancelled,
}

impl TaskStatus {
    /// While a task is in one of these states its reward sits in escrow.
    pub open spec fn holds_escrow(self) -> bool {
        ||| self == TaskStatus::Open
        ||| self == TaskStatus::InProgress
        ||| self == TaskStatus::Completed
        ||| self == TaskStatus::Disputed
    }

    /// Whether a task in this status has its reward in escrow.
    pub fn escrow_held(self) -> (held: bool)
        ensures
            held == self.holds_escrow(),
    {
        match self {
            TaskStatus::Open | TaskStatus::InProgress | TaskStatus::Completed | TaskStatus::Disputed => true,
            TaskStatus::Verified | TaskStatus::Cancelled => false,
        }
    }

    /// The moves the escrow contract lets a task make.
    pub open spec fn may_become(self, next: TaskStatus) -> bool {
        match (self, next) {
            (TaskStatus::Open, TaskStatus::InProgress) => true,
            (TaskStatus::Open, TaskStatus::Cancelled) => true,
            (TaskStatus::InProgress, TaskStatus::Completed) => true,
            (TaskStatus::InProgress, TaskStatus::Disputed) => true,
            (TaskStatus::Completed, TaskStatus::Verified) => true,
            (TaskStatus::Completed, TaskStatus::Disputed) => true,
            (TaskStatus::Disputed, TaskStatus::Verified) => true,
            _ => false,
        }
    }
}

/// The settings fixed when the escrow contract is initialized.
#[derive(Clone, Copy, PartialEq, Eq, Debug, Structural)]
pub struct ProConfig {
    pub admin: Address,
    /// The platform's cut of every payout, in basis points.
    pub platform_fee_bps: u32,
    /// The token in which rewards are escrowed and paid.
    pub token_contract: Address,
    pub fee_recipient: Address,
}

/// A task whose reward is held in escrow. Text is kept as the bytes of the
/// ledger string.
#[derive(Debug)]
pub struct Task {
    pub id: u32,
    pub title: Vec<u8>,
    pub description: Vec<u8>,
    pub reward: i128,
    pub assignee: Option<Address>,
    pub status: TaskStatus,
    pub created_by: Address,
    pub tags: Vec<Vec<u8>>,
}

/// The mathematical content of a [`Task`].
pub struct TaskView {
    pub id: u32,
    pub title: Seq<u8>,
    pub description: Seq<u8>,
    pub reward: i128,
    pub assignee: Option<Address>,
    pub status: TaskStatus,
    pub created_by: Address,
    pub tags: Seq<Seq<u8>>,
}

impl View for Task {
    type V = TaskView;

    open spec fn view(&self) -> TaskView {
        TaskView {
            id: self.id,
            title: self.title@,
            description: self.description@,
            reward: self.reward,
            assignee: self.assignee,
            status: self.status,
            created_by: self.created_by,
            tags: self.tags.deep_view(),
        }
    }
}

impl Task {
    /// A copy of the task.
    pub fn duplicate(&self) -> (copy: Task)
        ensures
            copy@ == self@,
    {
        Task {
            id: self.id,
            title: copy_bytes(&self.title),
            description: copy_bytes(&self.description),
            reward: self.reward,
            assignee: self.assignee,
            status: self.status,
            created_by: self.created_by,
            tags: copy_byte_lists(&self.tags),
        }
    }
}

/// A movement of reward tokens into or out of the contract's escrow.
#[derive(Clone, Copy, PartialEq, Eq, Debug, Structural)]
pub enum Transfer {
    /// `from` pays `amount` to the contract.
    Deposit { from: Address, amount: i128 },
    /// The contract pays `amount` to `to`.
    Payout { to: Address, amount: i128 },
}

/// What the contract announces after a successful request.
#[derive(Clone, Copy, PartialEq, Eq, Debug, Structural)]
pub enum ProEvent {
    TaskCreated { task_id: u32 },
    TaskAssigned { task_id: u32, assignee: Address },
    WorkSubmitted { task_id: u32, assignee: Address },
    TaskVerified { task_id: u32, reward: i128 },
    TaskCancelled { task_id: u32, reward: i128 },
    TaskDisputed { task_id: u32, caller: Address },
    DisputeResolved { task_id: u32, total_reward: i128 },
}

/// Why the escrow contract refused a request.
#[derive(Clone, Copy, PartialEq, Eq, Debug, Structural)]
pub enum ProError {
    AlreadyInitialized,
    NotInitialized,
    RewardNotPositive,
    TaskNotFound,
    TaskNotOpen,
    TaskNotInProgress,
    NotAssignee,
    NotAdminOrCreator,
    TaskNotCompleted,
    NoAssignee,
    NotCreator,
    NotCancellable,
    NotCreatorOrAssignee,
    NotDisputable,
    NotAdmin,
    TaskNotDisputed,
    SplitMismatch,
    NegativeShare,
    Overflow,
}

/// The whole state of the escrow contract.
pub struct ProState {
    pub config: Option<ProConfig>,
    /// Task `i` has id `i`.
    pub tasks: Seq<TaskView>,
    /// The escrow entry of each task: the reward held for it, if any.
    pub escrow: Seq<Option<i128>>,
}

/// The result of a request on a task: the next state, the token movements
/// the contract makes, and the event it announces; or the refusal.
pub type ProStep = Result<(ProState, Seq<Transfer>, ProEvent), ProError>;

impl TaskView {
    pub open spec fn with_status(self, status: TaskStatus) -> TaskView {
        TaskView { status, ..self }
    }
}

impl ProState {
    /// A freshly deployed contract.
    pub open spec fn empty() -> ProState {
        ProState { config: None, tasks: Seq::empty(), escrow: Seq::empty() }
    }

    /// What every reachable state satisfies.
    pub open spec fn inv(self) -> bool {
        &&& self.tasks.len() == self.escrow.len()
        &&& self.tasks.len() <= u32::MAX
        &&& self.tasks.len() > 0 ==> self.config is Some
        &&& forall|i: int| 0 <= i < self.tasks.len() ==> self.task_ok(i, #[trigger] self.tasks[i])
    }

    /// Task `task`, stored under index `i`, is consistent with the rest of
    /// the state: it has id `i` and a positive reward, its reward sits in
    /// escrow exactly while its status holds escrow, and it has an assignee
    /// exactly when it has left the open state other than by cancellation.
    pub open spec fn task_ok(self, i: int, task: TaskView) -> bool {
        &&& task.id == i
        &&& task.reward > 0
        &&& self.escrow[i] == (if task.status.holds_escrow() {
            Some(task.reward)
        } else {
            None
        })
        &&& (task.assignee is Some <==> !(task.status == TaskStatus::Open || task.status
            == TaskStatus::Cancelled))
    }

    /// `task_id` names an existing task.
    pub open spec fn has_task(self, task_id: u32) -> bool {
        task_id < self.tasks.len()
    }

    /// The state with task `task_id` replaced by `task`.
    pub open spec fn with_task(self, task_id: u32, task: TaskView) -> ProState {
        ProState { tasks: self.tasks.update(task_id as int, task), ..self }
    }

    /// The state with task `task_id` closed: moved to `status` and its
    /// escrow entry removed.
    pub open spec fn close_task(self, task_id: u32, status: TaskStatus) -> ProState {
        ProState {
            tasks: self.tasks.update(task_id as int, self.tasks[task_id as int].with_status(status)),
            escrow: self.escrow.update(task_id as int, None),
            ..self
        }
    }

    pub open spec fn initialize(
        self,
        admin: Address,
        platform_fee_bps: u32,
        token_contract: Address,
        fee_recipient: Address,
    ) -> Result<ProState, ProError> {
        if self.config is Some {
            Err(ProError::AlreadyInitialized)
        } else {
            Ok(
                ProState {
                    config: Some(ProConfig { admin, platform_fee_bps, token_contract, fee_recipient }),
                    ..self
                },
            )
        }
    }

    pub open spec fn create_task(
        self,
        creator: Address,
        title: Seq<u8>,
        description: Seq<u8>,
        reward: i128,
        tags: Seq<Seq<u8>>,
    ) -> ProStep {
        if reward <= 0 {
            Err(ProError::RewardNotPositive)
        } else if self.config is None {
            Err(ProError::NotInitialized)
        } else if self.tasks.len() >= u32::MAX {
            Err(ProError::Overflow)
        } else {
            let task_id = self.tasks.len() as u32;
            let task = TaskView {
                id: task_id,
                title,
                description,
                reward,
                assignee: None,
                status: TaskStatus::Open,
                created_by: creator,
                tags,
            };
            Ok(
                (
                    ProState {
                        tasks: self.tasks.push(task),
                        escrow: self.escrow.push(Some(reward)),
                        ..self
                    },
                    seq![Transfer::Deposit { from: creator, amount: reward }],
                    ProEvent::TaskCreated { task_id },
                ),
            )
        }
    }

    pub open spec fn assign_task(self, assignee: Address, task_id: u32) -> ProStep {
        if !self.has_task(task_id) {
            Err(ProError::TaskNotFound)
        } else if self.tasks[task_id as int].status != TaskStatus::Open {
            Err(ProError::TaskNotOpen)
        } else {
            let task = self.tasks[task_id as int];
            Ok(
                (
                    self.with_task(
                        task_id,
                        TaskView { assignee: Some(assignee), status: TaskStatus::InProgress, ..task },
                    ),
                    Seq::empty(),
                    ProEvent::TaskAssigned { task_id, assignee },
                ),
            )
        }
    }

    pub open spec fn submit_work(self, assignee: Address, task_id: u32) -> ProStep {
        if !self.has_task(task_id) {
            Err(ProError::TaskNotFound)
        } else if self.tasks[task_id as int].status != TaskStatus::InProgress {
            Err(ProError::TaskNotInProgress)
        } else if self.tasks[task_id as int].assignee != Some(assignee) {
            Err(ProError::NotAssignee)
        } else {
            Ok(
                (
                    self.with_task(
                        task_id,
                        self.tasks[task_id as int].with_status(TaskStatus::Completed),
                    ),
                    Seq::empty(),
                    ProEvent::WorkSubmitted { task_id, assignee },
                ),
            )
        }
    }

    /// The payouts that settle `amount` to `assignee`: the amount less the
    /// platform fee to the assignee, and the fee, when positive, to the fee
    /// recipient.
    pub open spec fn fee_split(config: ProConfig, assignee: Address, amount: i128) -> Seq<Transfer> {
        let fee = fee_of(amount as int, config.platform_fee_bps as int);
        seq![Transfer::Payout { to: assignee, amount: (amount - fee) as i128 }] + if fee > 0 {
            seq![Transfer::Payout { to: config.fee_recipient, amount: fee as i128 }]
        } else {
            Seq::empty()
        }
    }

    pub open spec fn complete_task(self, caller: Address, task_id: u32) -> ProStep {
        if !self.has_task(task_id) {
            Err(ProError::TaskNotFound)
        } else if self.config is None {
            Err(ProError::NotInitialized)
        } else {
            let task = self.tasks[task_id as int];
            let config = self.config->0;
            if caller != task.created_by && caller != config.admin {
                Err(ProError::NotAdminOrCreator)
            } else if task.status != TaskStatus::Completed {
                Err(ProError::TaskNotCompleted)
            } else if task.assignee is None {
                Err(ProError::NoAssignee)
            } else if !fee_computable(task.reward as int, config.platform_fee_bps as int) {
                Err(ProError::Overflow)
            } else {
                Ok(
                    (
                        self.close_task(task_id, TaskStatus::Verified),
                        ProState::fee_split(config, task.assignee->0, task.reward),
                        ProEvent::TaskVerified { task_id, reward: task.reward },
                    ),
                )
            }
        }
    }

    pub open spec fn cancel_task(self, creator: Address, task_id: u32) -> ProStep {
        if !self.has_task(task_id) {
            Err(ProError::TaskNotFound)
        } else if self.tasks[task_id as int].created_by != creator {
            Err(ProError::NotCreator)
        } else if self.tasks[task_id as int].status != TaskStatus::Open {
            Err(ProError::NotCancellable)
        } else if self.config is None {
            Err(ProError::NotInitialized)
        } else {
            let reward = self.tasks[task_id as int].reward;
            Ok(
                (
                    self.close_task(task_id, TaskStatus::Cancelled),
                    seq![Transfer::Payout { to: creator, amount: reward }],
                    ProEvent::TaskCancelled { task_id, reward },
                ),
            )
        }
    }

    pub open spec fn dispute_task(self, caller: Address, task_id: u32) -> ProStep {
        if !self.has_task(task_id) {
            Err(ProError::TaskNotFound)
        } else {
            let task = self.tasks[task_id as int];
            if caller != task.created_by && Some(caller) != task.assignee {
                Err(ProError::NotCreatorOrAssignee)
            } else if task.status != TaskStatus::InProgress && task.status != TaskStatus::Completed {
                Err(ProError::NotDisputable)
            } else {
                Ok(
                    (
                        self.with_task(task_id, task.with_status(TaskStatus::Disputed)),
                        Seq::empty(),
                        ProEvent::TaskDisputed { task_id, caller },
                    ),
                )
            }
        }
    }

    /// The payouts of a dispute settlement: the creator's refund, when
    /// positive; then, when the assignee's share is positive, that share less
    /// the platform fee (when positive) and the fee (when positive).
    pub open spec fn settlement(
        config: ProConfig,
        task: TaskView,
        creator_refund: i128,
        assignee_payout: i128,
    ) -> Seq<Transfer> {
        let refund = if creator_refund > 0 {
            seq![Transfer::Payout { to: task.created_by, amount: creator_refund }]
        } else {
            Seq::empty()
        };
        let fee = fee_of(assignee_payout as int, config.platform_fee_bps as int);
        let net = assignee_payout - fee;
        let payout = if assignee_payout > 0 {
            (if net > 0 {
                seq![Transfer::Payout { to: task.assignee->0, amount: net as i128 }]
            } else {
                Seq::empty()
            }) + (if fee > 0 {
                seq![Transfer::Payout { to: config.fee_recipient, amount: fee as i128 }]
            } else {
                Seq::empty()
            })
        } else {
            Seq::empty()
        };
        refund + payout
    }

    pub open spec fn resolve_dispute(
        self,
        admin: Address,
        task_id: u32,
        creator_refund: i128,
        assignee_payout: i128,
    ) -> ProStep {
        if self.config is None {
            Err(ProError::NotInitialized)
        } else if admin != self.config->0.admin {
            Err(ProError::NotAdmin)
        } else if !self.has_task(task_id) {
            Err(ProError::TaskNotFound)
        } else {
            let task = self.tasks[task_id as int];
            let config = self.config->0;
            let sum = creator_refund + assignee_payout;
            if task.status != TaskStatus::Disputed {
                Err(ProError::TaskNotDisputed)
            } else if sum < i128::MIN || sum > i128::MAX {
                Err(ProError::Overflow)
            } else if sum != task.reward {
                Err(ProError::SplitMismatch)
            } else if creator_refund < 0 || assignee_payout < 0 {
                Err(ProError::NegativeShare)
            } else if assignee_payout > 0 && task.assignee is None {
                Err(ProError::NoAssignee)
            } else if assignee_payout > 0 && !fee_computable(
                assignee_payout as int,
                config.platform_fee_bps as int,
            ) {
                Err(ProError::Overflow)
            } else {
                Ok(
                    (
                        self.close_task(task_id, TaskStatus::Verified),
                        ProState::settlement(config, task, creator_refund, assignee_payout),
                        ProEvent::DisputeResolved { task_id, total_reward: task.reward },
                    ),
                )
            }
        }
    }
}

} // verus!
