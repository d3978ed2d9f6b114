use crate::address::Address;
use crate::fees::{fee_of, lemma_fee_bounds};
use crate::pro::model::{ProConfig, ProError, ProEvent, ProState, ProStep, TaskStatus, TaskView, Transfer};
use vstd::prelude::*;

verus! {

/// A request on the tasks of the escrow contract.
pub enum ProRequest {
    CreateTask {
        creator: Address,
        title: Seq<u8>,
        description: Seq<u8>,
        reward: i128,
        tags: Seq<Seq<u8>>,
    },
    AssignTask { assignee: Address, task_id: u32 },
    SubmitWork { assignee: Address, task_id: u32 },
    CompleteTask { caller: Address, task_id: u32 },
    CancelTask { creator: Address, task_id: u32 },
    DisputeTask { caller: Address, task_id: u32 },
    ResolveDispute { admin: Address, task_id: u32, creator_refund: i128, assignee_payout: i128 },
}

impl ProState {
    /// How the contract answers `request`.
    pub open spec fn handle(self, request: ProRequest) -> ProStep {
        match request {
            ProRequest::CreateTask { creator, title, description, reward, tags } => self.create_task(
                creator,
                title,
                description,
                reward,
                tags,
            ),
            ProRequest::AssignTask { assignee, task_id } => self.assign_task(assignee, task_id),
            ProRequest::SubmitWork { assignee, task_id } => self.submit_work(assignee, task_id),
            ProRequest::CompleteTask { caller, task_id } => self.complete_task(caller, task_id),
            ProRequest::CancelTask { creator, task_id } => self.cancel_task(creator, task_id),
            ProRequest::DisputeTask { caller, task_id } => self.dispute_task(caller, task_id),
            ProRequest::ResolveDispute { admin, task_id, creator_refund, assignee_payout } =>
                self.resolve_dispute(admin, task_id, creator_refund, assignee_payout),
        }
    }
}

/// The amount an escrow entry holds.
pub open spec fn held(entry: Option<i128>) -> int {
    match entry {
        Some(amount) => amount as int,
        None => 0,
    }
}

/// The sum of all escrow entries: what the contract owes to open tasks.
pub open spec fn escrow_total(escrow: Seq<Option<i128>>) -> int
    decreases escrow.len(),
{
    if escrow.len() == 0 {
        0
    } else {
        escrow_total(escrow.drop_last()) + held(escrow.last())
    }
}

/// The tokens that `transfers` move into the contract, less those they move
/// out of it.
pub open spec fn net_inflow(transfers: Seq<Transfer>) -> int
    decreases transfers.len(),
{
    if transfers.len() == 0 {
        0
    } else {
        net_inflow(transfers.drop_last()) + match transfers.last() {
            Transfer::Deposit { amount, .. } => amount as int,
            Transfer::Payout { amount, .. } => -amount,
        }
    }
}

proof fn lemma_total_push(escrow: Seq<Option<i128>>, entry: Option<i128>)
    ensures
        escrow_total(escrow.push(entry)) == escrow_total(escrow) + held(entry),
{
    assert(escrow.push(entry).drop_last() =~= escrow);
}

proof fn lemma_total_update(escrow: Seq<Option<i128>>, i: int, entry: Option<i128>)
    requires
        0 <= i < escrow.len(),
    ensures
        escrow_total(escrow.update(i, entry)) == escrow_total(escrow) - held(escrow[i]) + held(entry),
    decreases escrow.len(),
{
    let updated = escrow.update(i, entry);
    if i == escrow.len() - 1 {
        assert(updated.drop_last() =~= escrow.drop_last());
    } else {
        lemma_total_update(escrow.drop_last(), i, entry);
        assert(updated.drop_last() =~= escrow.drop_last().update(i, entry));
    }
}

proof fn lemma_inflow_concat(a: Seq<Transfer>, b: Seq<Transfer>)
    ensures
        net_inflow(a + b) == net_inflow(a) + net_inflow(b),
    decreases b.len(),
{
    if b.len() == 0 {
        assert(a + b =~= a);
    } else {
        lemma_inflow_concat(a, b.drop_last());
        assert((a + b).drop_last() =~= a + b.drop_last());
    }
}

proof fn lemma_inflow_single(t: Transfer)
    ensures
        net_inflow(seq![t]) == match t {
            Transfer::Deposit { amount, .. } => amount as int,
            Transfer::Payout { amount, .. } => -amount,
        },
{
    assert(seq![t].drop_last() =~= Seq::<Transfer>::empty());
    assert(seq![t].last() == t);
    assert(net_inflow(Seq::<Transfer>::empty()) == 0);
}

/// Escrow balance: every accepted request moves exactly as many tokens into
/// the contract, net, as the escrow it holds for tasks grows by. Creating a
/// task deposits its reward; verifying, cancelling or settling a task pays
/// out exactly the reward that was held for it; the other requests move
/// nothing. A dispute settlement keeps this only when the platform fee is
/// at most a whole.
pub proof fn law_escrow_balance(s: ProState, request: ProRequest)
    requires
        s.inv(),
        request is ResolveDispute ==> (s.config matches Some(c) ==> c.platform_fee_bps <= 10000),
    ensures
        s.handle(request) matches Ok((t, transfers, _)) ==> escrow_total(t.escrow) == escrow_total(
            s.escrow,
        ) + net_inflow(transfers),
{
    match s.handle(request) {
        Ok((t, transfers, _)) => {
            match request {
                ProRequest::CreateTask { creator, reward, .. } => {
                    lemma_total_push(s.escrow, Some(reward));
                    lemma_inflow_single(Transfer::Deposit { from: creator, amount: reward });
                },
                ProRequest::AssignTask { .. } => {
                    assert(t.escrow == s.escrow);
                },
                ProRequest::SubmitWork { .. } => {
                    assert(t.escrow == s.escrow);
                },
                ProRequest::DisputeTask { .. } => {
                    assert(t.escrow == s.escrow);
                },
                ProRequest::CompleteTask { task_id, .. } => {
                    let i = task_id as int;
                    let task = s.tasks[i];
                    let c = s.config->0;
                    lemma_total_update(s.escrow, i, None);
                    lemma_fee_bounds(task.reward as int, c.platform_fee_bps as int);
                    let fee = fee_of(task.reward as int, c.platform_fee_bps as int);
                    let first = seq![
                        Transfer::Payout { to: task.assignee->0, amount: (task.reward - fee) as i128 },
                    ];
                    let second = if fee > 0 {
                        seq![Transfer::Payout { to: c.fee_recipient, amount: fee as i128 }]
                    } else {
                        Seq::empty()
                    };
                    lemma_inflow_concat(first, second);
                    lemma_inflow_single(first[0]);
                    if fee > 0 {
                        lemma_inflow_single(second[0]);
                    }
                },
                ProRequest::CancelTask { creator, task_id } => {
                    lemma_total_update(s.escrow, task_id as int, None);
                    lemma_inflow_single(
                        Transfer::Payout { to: creator, amount: s.tasks[task_id as int].reward },
                    );
                },
                ProRequest::ResolveDispute { task_id, creator_refund, assignee_payout, .. } => {
                    let i = task_id as int;
                    let task = s.tasks[i];
                    let c = s.config->0;
                    lemma_total_update(s.escrow, i, None);
                    lemma_fee_bounds(assignee_payout as int, c.platform_fee_bps as int);
                    let fee = fee_of(assignee_payout as int, c.platform_fee_bps as int);
                    let net = assignee_payout - fee;
                    let refund = if creator_refund > 0 {
                        seq![Transfer::Payout { to: task.created_by, amount: creator_refund }]
                    } else {
                        Seq::empty()
                    };
                    let net_part = if net > 0 {
                        seq![Transfer::Payout { to: task.assignee->0, amount: net as i128 }]
                    } else {
                        Seq::empty()
                    };
                    let fee_part = if fee > 0 {
                        seq![Transfer::Payout { to: c.fee_recipient, amount: fee as i128 }]
                    } else {
                        Seq::empty()
                    };
                    let payout = if assignee_payout > 0 {
                        net_part + fee_part
                    } else {
                        Seq::empty()
                    };
                    lemma_inflow_concat(refund, payout);
                    lemma_inflow_concat(net_part, fee_part);
                    if creator_refund > 0 {
                        lemma_inflow_single(refund[0]);
                    }
                    if net > 0 {
                        lemma_inflow_single(net_part[0]);
                    }
                    if fee > 0 {
                        lemma_inflow_single(fee_part[0]);
                    }
                    assert(transfers == refund + payout);
                },
            }
        },
        Err(_) => {},
    }
}

/// Lifecycle: an accepted request never removes a task, never changes a
/// task's reward, creator, title, description or tags, and moves a task's
/// status only along the contract's lifecycle (open, in progress,
/// completed, verified; cancelled from open; disputed from in progress or
/// completed, and verified from there). Verified and cancelled tasks never
/// change again. A new task starts open and unassigned.
pub proof fn law_lifecycle(s: ProState, request: ProRequest)
    requires
        s.inv(),
    ensures
        s.handle(request) matches Ok((t, _, _)) ==> {
            &&& t.tasks.len() >= s.tasks.len()
            &&& forall|i: int|
                0 <= i < s.tasks.len() ==> {
                    &&& #[trigger] t.tasks[i].reward == s.tasks[i].reward
                    &&& t.tasks[i].created_by == s.tasks[i].created_by
                    &&& t.tasks[i].title == s.tasks[i].title
                    &&& t.tasks[i].description == s.tasks[i].description
                    &&& t.tasks[i].tags == s.tasks[i].tags
                    &&& t.tasks[i].status == s.tasks[i].status || s.tasks[i].status.may_become(
                        t.tasks[i].status,
                    )
                }
            &&& forall|i: int|
                s.tasks.len() <= i < t.tasks.len() ==> #[trigger] t.tasks[i].status
                    == TaskStatus::Open && t.tasks[i].assignee is None
        },
{
}

/// Verified and cancelled tasks are final: no accepted request changes them.
pub proof fn law_closed_tasks_stay_closed(s: ProState, request: ProRequest, task_id: u32)
    requires
        s.inv(),
        s.has_task(task_id),
        s.tasks[task_id as int].status == TaskStatus::Verified || s.tasks[task_id as int].status
            == TaskStatus::Cancelled,
    ensures
        s.handle(request) matches Ok((t, _, _)) ==> t.tasks[task_id as int] == s.tasks[task_id as int],
{
}

/// The contract is initialized once: after an accepted initialization every
/// further one is refused.
pub proof fn law_initialize_once(
    s: ProState,
    admin: Address,
    platform_fee_bps: u32,
    token_contract: Address,
    fee_recipient: Address,
    admin2: Address,
    platform_fee_bps2: u32,
    token_contract2: Address,
    fee_recipient2: Address,
)
    ensures
        s.initialize(admin, platform_fee_bps, token_contract, fee_recipient) matches Ok(t) ==> t.initialize(
            admin2,
            platform_fee_bps2,
            token_contract2,
            fee_recipient2,
        ) == Err::<ProState, ProError>(ProError::AlreadyInitialized),
{
}

/// Initialization keeps the invariant.
pub proof fn law_initialize_keeps_invariant(
    s: ProState,
    admin: Address,
    platform_fee_bps: u32,
    token_contract: Address,
    fee_recipient: Address,
)
    requires
        s.inv(),
    ensures
        s.initialize(admin, platform_fee_bps, token_contract, fee_recipient) matches Ok(t) ==> t.inv(),
{
}

/// Accepted requests keep the invariant: in particular, a task's reward
/// stays in escrow exactly while the task is open, in progress, completed
/// or disputed, and a task has an assignee exactly when it has left the open
/// state other than by cancellation.
pub proof fn law_requests_keep_invariant(s: ProState, request: ProRequest)
    requires
        s.inv(),
    ensures
        s.handle(request) matches Ok((t, _, _)) ==> t.inv(),
{
    match s.handle(request) {
        Ok((t, _, _)) => {
            assert(t.inv());
        },
        Err(_) => {},
    }
}

/// A created task reads back under the returned id as created: open,
/// unassigned, with its reward in escrow; the earlier tasks are untouched.
pub proof fn law_created_task_reads_back(
    s: ProState,
    creator: Address,
    title: Seq<u8>,
    description: Seq<u8>,
    reward: i128,
    tags: Seq<Seq<u8>>,
)
    requires
        s.inv(),
    ensures
        s.create_task(creator, title, description, reward, tags) matches Ok((t, _, event)) ==> {
            &&& event == crate::pro::model::ProEvent::TaskCreated { task_id: s.tasks.len() as u32 }
            &&& t.tasks.len() == s.tasks.len() + 1
            &&& t.tasks.last() == crate::pro::model::TaskView {
                id: s.tasks.len() as u32,
                title,
                description,
                reward,
                assignee: None,
                status: TaskStatus::Open,
                created_by: creator,
                tags,
            }
            &&& t.escrow.last() == Some(reward)
            &&& t.tasks.drop_last() == s.tasks
        },
{
    match s.create_task(creator, title, description, reward, tags) {
        Ok((t, _, _)) => {
            assert(t.tasks.drop_last() =~= s.tasks);
        },
        Err(_) => {},
    }
}

/// Initialization is read back: afterwards the settings are those given,
/// and the tasks and escrow are as before.
pub proof fn law_initialize_reads_back(
    s: ProState,
    admin: Address,
    platform_fee_bps: u32,
    token_contract: Address,
    fee_recipient: Address,
)
    ensures
        s.initialize(admin, platform_fee_bps, token_contract, fee_recipient) matches Ok(t) ==> {
            &&& t.config == Some(ProConfig { admin, platform_fee_bps, token_contract, fee_recipient })
            &&& t.tasks == s.tasks
            &&& t.escrow == s.escrow
        },
{
}

/// Taking an open task: for an existing open task, anyone may take it; the
/// task moves into progress with the taker as assignee, nothing else changes,
/// no tokens move. A task that is not open cannot be taken.
pub proof fn law_assign_open_task(s: ProState, assignee: Address, task_id: u32)
    requires
        s.inv(),
        task_id < s.tasks.len(),
    ensures
        s.tasks[task_id as int].status == TaskStatus::Open ==> (s.assign_task(assignee, task_id) matches Ok(
            (t, transfers, event),
        ) && t.config == s.config && t.escrow == s.escrow && t.tasks == s.tasks.update(
            task_id as int,
            TaskView {
                assignee: Some(assignee),
                status: TaskStatus::InProgress,
                ..s.tasks[task_id as int]
            },
        ) && transfers.len() == 0 && event == ProEvent::TaskAssigned { task_id, assignee }),
        s.tasks[task_id as int].status != TaskStatus::Open ==> s.assign_task(assignee, task_id) is Err,
{
}

/// Handing in work: the assignee of a task in progress hands it in and the
/// task becomes completed, nothing else changing; nobody else can, and a
/// task not in progress cannot be handed in.
pub proof fn law_submit_work(s: ProState, assignee: Address, task_id: u32)
    requires
        s.inv(),
        task_id < s.tasks.len(),
    ensures
        s.tasks[task_id as int].status == TaskStatus::InProgress && s.tasks[task_id as int].assignee
            == Some(assignee) ==> (s.submit_work(assignee, task_id) matches Ok((t, transfers, event))
            && t.config == s.config && t.escrow == s.escrow && t.tasks == s.tasks.update(
            task_id as int,
            TaskView { status: TaskStatus::Completed, ..s.tasks[task_id as int] },
        ) && transfers.len() == 0 && event == ProEvent::WorkSubmitted { task_id, assignee }),
        !(s.tasks[task_id as int].status == TaskStatus::InProgress && s.tasks[task_id as int].assignee
            == Some(assignee)) ==> s.submit_work(assignee, task_id) is Err,
{
}

/// Verifying work: once work is handed in, the creator or the admin verifies
/// it (unless the fee computation overflows); the task becomes verified, its
/// escrow is released, the assignee is paid the reward less the fee
/// `reward * bps / 10000` (rounded down), and the fee, when positive, goes to
/// the fee recipient. Anyone else is refused, as is a task not handed in.
pub proof fn law_complete_task(s: ProState, caller: Address, task_id: u32)
    requires
        s.inv(),
        task_id < s.tasks.len(),
    ensures
        ({
            let task = s.tasks[task_id as int];
            let c = s.config->0;
            let fee = (task.reward * c.platform_fee_bps) / 10000;
            &&& (caller == task.created_by || caller == c.admin) && task.status == TaskStatus::Completed
                && task.reward * c.platform_fee_bps <= i128::MAX ==> (s.complete_task(caller, task_id) matches Ok(
                (t, transfers, event),
            ) && t.config == s.config && t.tasks == s.tasks.update(
                task_id as int,
                TaskView { status: TaskStatus::Verified, ..task },
            ) && t.escrow == s.escrow.update(task_id as int, None) && transfers[0]
                == Transfer::Payout { to: task.assignee->0, amount: (task.reward - fee) as i128 }
                && (fee > 0 ==> transfers.len() == 2 && transfers[1] == Transfer::Payout {
                to: c.fee_recipient,
                amount: fee as i128,
            }) && (fee == 0 ==> transfers.len() == 1) && event == ProEvent::TaskVerified {
                task_id,
                reward: task.reward,
            })
            &&& !((caller == task.created_by || caller == c.admin) && task.status
                == TaskStatus::Completed) ==> s.complete_task(caller, task_id) is Err
        }),
{
    let task = s.tasks[task_id as int];
    let c = s.config->0;
    crate::fees::lemma_fee_bounds(task.reward as int, c.platform_fee_bps as int);
}

/// Cancelling: the creator of an open task cancels it; the task becomes
/// cancelled and its whole reward goes back to the creator, out of escrow.
/// Anyone else, or a task that is not open, is refused.
pub proof fn law_cancel_task(s: ProState, creator: Address, task_id: u32)
    requires
        s.inv(),
        task_id < s.tasks.len(),
    ensures
        s.tasks[task_id as int].created_by == creator && s.tasks[task_id as int].status
            == TaskStatus::Open ==> (s.cancel_task(creator, task_id) matches Ok((t, transfers, event))
            && t.config == s.config && t.tasks == s.tasks.update(
            task_id as int,
            TaskView { status: TaskStatus::Cancelled, ..s.tasks[task_id as int] },
        ) && t.escrow == s.escrow.update(task_id as int, None) && transfers == seq![
            Transfer::Payout { to: creator, amount: s.tasks[task_id as int].reward },
        ] && event == ProEvent::TaskCancelled { task_id, reward: s.tasks[task_id as int].reward }),
        !(s.tasks[task_id as int].created_by == creator && s.tasks[task_id as int].status
            == TaskStatus::Open) ==> s.cancel_task(creator, task_id) is Err,
{
}

/// Disputing: the creator or the assignee of a task in progress or awaiting
/// verification disputes it; the task becomes disputed, its reward stays in
/// escrow and nothing else changes. Anyone else, or a task in another
/// status, is refused.
pub proof fn law_dispute_task(s: ProState, caller: Address, task_id: u32)
    requires
        s.inv(),
        task_id < s.tasks.len(),
    ensures
        ({
            let task = s.tasks[task_id as int];
            let party = caller == task.created_by || Some(caller) == task.assignee;
            let active = task.status == TaskStatus::InProgress || task.status == TaskStatus::Completed;
            &&& party && active ==> (s.dispute_task(caller, task_id) matches Ok((t, transfers, event))
                && t.config == s.config && t.escrow == s.escrow && t.tasks == s.tasks.update(
                task_id as int,
                TaskView { status: TaskStatus::Disputed, ..task },
            ) && transfers.len() == 0 && event == ProEvent::TaskDisputed { task_id, caller })
            &&& !(party && active) ==> s.dispute_task(caller, task_id) is Err
        }),
{
}

/// Settling a dispute: the admin splits a disputed task's reward into a
/// refund and a payout, neither negative, summing to the reward; the task
/// becomes verified and its escrow is released. A positive refund is paid to
/// the creator first; the assignee gets the payout less the fee. Anyone
/// but the admin, a task not in dispute, a split that does not sum to the
/// reward, or a negative share is refused.
pub proof fn law_resolve_dispute(
    s: ProState,
    admin: Address,
    task_id: u32,
    creator_refund: i128,
    assignee_payout: i128,
)
    requires
        s.inv(),
        s.config is Some,
        task_id < s.tasks.len(),
    ensures
        ({
            let task = s.tasks[task_id as int];
            let c = s.config->0;
            let allowed = admin == c.admin && task.status == TaskStatus::Disputed && creator_refund
                + assignee_payout == task.reward && creator_refund >= 0 && assignee_payout >= 0;
            &&& allowed && assignee_payout * c.platform_fee_bps <= i128::MAX ==> (s.resolve_dispute(
                admin,
                task_id,
                creator_refund,
                assignee_payout,
            ) matches Ok((t, transfers, event)) && t.config == s.config && t.tasks == s.tasks.update(
                task_id as int,
                TaskView { status: TaskStatus::Verified, ..task },
            ) && t.escrow == s.escrow.update(task_id as int, None) && (creator_refund > 0
                ==> transfers[0] == Transfer::Payout { to: task.created_by, amount: creator_refund })
                && event == ProEvent::DisputeResolved { task_id, total_reward: task.reward })
            &&& !allowed ==> s.resolve_dispute(admin, task_id, creator_refund, assignee_payout) is Err
        }),
{
}

/// Which task creations are accepted: after initialization, a positive
/// reward is accepted unless the ids are exhausted; a reward that is not
/// positive, or a creation before initialization, is refused.
pub proof fn law_create_task_accepted(
    s: ProState,
    creator: Address,
    title: Seq<u8>,
    description: Seq<u8>,
    reward: i128,
    tags: Seq<Seq<u8>>,
)
    requires
        s.inv(),
    ensures
        s.create_task(creator, title, description, reward, tags) is Ok <==> reward > 0
            && s.config is Some && s.tasks.len() < u32::MAX,
        s.create_task(creator, title, description, reward, tags) matches Ok((_, transfers, _))
            ==> transfers == seq![Transfer::Deposit { from: creator, amount: reward }],
{
}

} // verus!
