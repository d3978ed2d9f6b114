use std::collections::HashMap;
use task_manager::address::Address;
use task_manager::pro::contract::{Receipt, TaskManagerPro};
use task_manager::pro::model::{ProError, ProEvent, TaskStatus, Transfer};

/// The reward token, as the tests see it: balances by address, with the
/// escrow contract's own balance under `contract`.
struct Token {
    contract: Address,
    balances: HashMap<Address, i128>,
}

impl Token {
    fn new(contract: Address) -> Token {
        Token { contract, balances: HashMap::new() }
    }

    fn mint(&mut self, to: Address, amount: i128) {
        *self.balances.entry(to).or_insert(0) += amount;
    }

    fn balance(&self, who: Address) -> i128 {
        *self.balances.get(&who).unwrap_or(&0)
    }

    fn move_tokens(&mut self, from: Address, to: Address, amount: i128) {
        assert!(amount >= 0, "negative amount is not allowed");
        assert!(self.balance(from) >= amount, "balance is not sufficient to spend");
        *self.balances.entry(from).or_insert(0) -= amount;
        *self.balances.entry(to).or_insert(0) += amount;
    }

    fn settle(&mut self, receipt: &Receipt) {
        for transfer in &receipt.transfers {
            match *transfer {
                Transfer::Deposit { from, amount } => self.move_tokens(from, self.contract, amount),
                Transfer::Payout { to, amount } => self.move_tokens(self.contract, to, amount),
            }
        }
    }
}

fn addr(n: u128) -> Address {
    Address::account(n, n)
}

struct Setup {
    admin: Address,
    fee_recipient: Address,
    token_address: Address,
    contract_id: Address,
    client: TaskManagerPro,
    token: Token,
}

fn setup_test_env() -> Setup {
    let contract_id = Address::contract(0xc0, 1);
    let admin = addr(1);
    let fee_recipient = addr(2);
    let token_address = Address::contract(0x70, 2);
    let mut client = TaskManagerPro::new();
    client.initialize(admin, 250, token_address, fee_recipient).unwrap();
    Setup { admin, fee_recipient, token_address, contract_id, client, token: Token::new(contract_id) }
}

fn text(s: &str) -> Vec<u8> {
    s.as_bytes().to_vec()
}

#[test]
fn test_initialization() {
    let Setup { admin, fee_recipient, token_address, client, .. } = setup_test_env();
    assert_eq!(client.get_admin().unwrap(), admin);
    assert_eq!(client.get_token_contract().unwrap(), token_address);
    assert_eq!(client.get_platform_fee(), 250);
    assert_eq!(client.get_fee_recipient().unwrap(), fee_recipient);
    assert_eq!(client.get_task_count(), 0);
}

#[test]
fn test_create_and_complete_task_flow() {
    let Setup { admin, fee_recipient, contract_id, mut client, mut token, .. } = setup_test_env();
    let creator = addr(10);
    let assignee = addr(11);

    let reward = 10000i128;
    token.mint(creator, reward);
    assert_eq!(token.balance(creator), reward);

    let title = text("Build stellar UI");
    let description = text("Integrate freighter wallet interface.");
    let tags = vec![text("stellar"), text("nextjs")];

    let (task_id, receipt) = client.create_task(creator, title, description, reward, tags).unwrap();
    token.settle(&receipt);
    assert_eq!(task_id, 0);

    assert_eq!(token.balance(creator), 0);
    assert_eq!(token.balance(contract_id), reward);

    let receipt = client.assign_task(assignee, task_id).unwrap();
    token.settle(&receipt);
    let task = client.get_task(task_id).unwrap();
    assert_eq!(task.status, TaskStatus::InProgress);
    assert_eq!(task.assignee.unwrap(), assignee);

    let receipt = client.submit_work(assignee, task_id, text("http://github.com/pr/1")).unwrap();
    token.settle(&receipt);
    let task_after_submission = client.get_task(task_id).unwrap();
    assert_eq!(task_after_submission.status, TaskStatus::Completed);

    let receipt = client.complete_task(admin, task_id).unwrap();
    token.settle(&receipt);

    assert_eq!(token.balance(assignee), 9750);
    assert_eq!(token.balance(fee_recipient), 250);
    assert_eq!(token.balance(contract_id), 0);

    let finished_task = client.get_task(task_id).unwrap();
    assert_eq!(finished_task.status, TaskStatus::Verified);
}

#[test]
fn test_cancel_task_refund() {
    let Setup { contract_id, mut client, mut token, .. } = setup_test_env();
    let creator = addr(10);
    let reward = 5000i128;
    token.mint(creator, reward);

    let title = text("Simple Design Task");
    let description = text("Figma design required.");
    let tags = vec![text("design")];

    let (task_id, receipt) = client.create_task(creator, title, description, reward, tags).unwrap();
    token.settle(&receipt);
    assert_eq!(token.balance(contract_id), reward);

    let receipt = client.cancel_task(creator, task_id).unwrap();
    token.settle(&receipt);

    assert_eq!(token.balance(creator), reward);
    assert_eq!(token.balance(contract_id), 0);

    let task = client.get_task(task_id).unwrap();
    assert_eq!(task.status, TaskStatus::Cancelled);
}

#[test]
fn test_dispute_and_resolution() {
    let Setup { admin, fee_recipient, contract_id, mut client, mut token, .. } = setup_test_env();
    let creator = addr(10);
    let assignee = addr(11);
    let reward = 20000i128;
    token.mint(creator, reward);

    let (task_id, receipt) = client
        .create_task(creator, text("Disputed Bounty"), text("Will raise a dispute."), reward, vec![])
        .unwrap();
    token.settle(&receipt);

    let receipt = client.assign_task(assignee, task_id).unwrap();
    token.settle(&receipt);

    let receipt = client.dispute_task(creator, task_id).unwrap();
    token.settle(&receipt);
    let task = client.get_task(task_id).unwrap();
    assert_eq!(task.status, TaskStatus::Disputed);

    let receipt = client.resolve_dispute(admin, task_id, 10000, 10000).unwrap();
    token.settle(&receipt);

    assert_eq!(token.balance(creator), 10000);
    assert_eq!(token.balance(assignee), 9750);
    assert_eq!(token.balance(fee_recipient), 250);
    assert_eq!(token.balance(contract_id), 0);

    let task_resolved = client.get_task(task_id).unwrap();
    assert_eq!(task_resolved.status, TaskStatus::Verified);
}

// ---- scenarios and laws on concrete values ----

#[test]
fn second_initialization_is_refused() {
    let Setup { mut client, token_address, fee_recipient, .. } = setup_test_env();
    assert_eq!(
        client.initialize(addr(99), 10, token_address, fee_recipient),
        Err(ProError::AlreadyInitialized)
    );
    assert_eq!(client.get_admin().unwrap(), addr(1));
    assert_eq!(client.get_platform_fee(), 250);
}

#[test]
fn getters_before_initialization() {
    let client = TaskManagerPro::new();
    assert_eq!(client.get_admin(), None);
    assert_eq!(client.get_token_contract(), None);
    assert_eq!(client.get_fee_recipient(), None);
    assert_eq!(client.get_platform_fee(), 0);
    assert_eq!(client.get_task_count(), 0);
    assert!(client.get_task(0).is_none());
}

#[test]
fn create_before_initialization_is_refused() {
    let mut client = TaskManagerPro::new();
    let r = client.create_task(addr(10), text("t"), text("d"), 100, vec![]);
    assert_eq!(r.err(), Some(ProError::NotInitialized));
    assert_eq!(client.get_task_count(), 0);
}

#[test]
fn non_positive_reward_is_refused() {
    let Setup { mut client, .. } = setup_test_env();
    assert_eq!(client.create_task(addr(10), text("t"), text("d"), 0, vec![]).err(), Some(ProError::RewardNotPositive));
    assert_eq!(client.create_task(addr(10), text("t"), text("d"), -5, vec![]).err(), Some(ProError::RewardNotPositive));
    assert_eq!(client.get_task_count(), 0);
}

#[test]
fn created_task_reads_back_and_ids_are_sequential() {
    let Setup { mut client, .. } = setup_test_env();
    let (a, receipt) = client.create_task(addr(10), text("first"), text("one"), 300, vec![text("x")]).unwrap();
    assert_eq!(receipt.transfers, vec![Transfer::Deposit { from: addr(10), amount: 300 }]);
    assert_eq!(receipt.event, ProEvent::TaskCreated { task_id: 0 });
    let (b, _) = client.create_task(addr(12), text("second"), text("two"), 400, vec![]).unwrap();
    assert_eq!((a, b), (0, 1));
    assert_eq!(client.get_task_count(), 2);
    let t = client.get_task(0).unwrap();
    assert_eq!(t.id, 0);
    assert_eq!(t.title, text("first"));
    assert_eq!(t.description, text("one"));
    assert_eq!(t.reward, 300);
    assert_eq!(t.assignee, None);
    assert_eq!(t.status, TaskStatus::Open);
    assert_eq!(t.created_by, addr(10));
    assert_eq!(t.tags, vec![text("x")]);
    assert_eq!(client.get_escrow_balance(0), Some(300));
    assert_eq!(client.get_escrow_balance(1), Some(400));
    assert_eq!(client.get_escrow_balance(2), None);
}

#[test]
fn assigning_a_missing_or_taken_task_is_refused() {
    let Setup { mut client, .. } = setup_test_env();
    assert_eq!(client.assign_task(addr(11), 0).err(), Some(ProError::TaskNotFound));
    client.create_task(addr(10), text("t"), text("d"), 100, vec![]).unwrap();
    let r = client.assign_task(addr(11), 0).unwrap();
    assert!(r.transfers.is_empty());
    assert_eq!(r.event, ProEvent::TaskAssigned { task_id: 0, assignee: addr(11) });
    assert_eq!(client.assign_task(addr(12), 0).err(), Some(ProError::TaskNotOpen));
    assert_eq!(client.get_task(0).unwrap().assignee, Some(addr(11)));
}

#[test]
fn only_the_assignee_submits_work_in_progress() {
    let Setup { mut client, .. } = setup_test_env();
    client.create_task(addr(10), text("t"), text("d"), 100, vec![]).unwrap();
    assert_eq!(client.submit_work(addr(11), 0, text("u")).err(), Some(ProError::TaskNotInProgress));
    client.assign_task(addr(11), 0).unwrap();
    assert_eq!(client.submit_work(addr(12), 0, text("u")).err(), Some(ProError::NotAssignee));
    assert_eq!(client.submit_work(addr(11), 7, text("u")).err(), Some(ProError::TaskNotFound));
    let r = client.submit_work(addr(11), 0, text("u")).unwrap();
    assert_eq!(r.event, ProEvent::WorkSubmitted { task_id: 0, assignee: addr(11) });
}

#[test]
fn completion_rules() {
    let Setup { mut client, .. } = setup_test_env();
    client.create_task(addr(10), text("t"), text("d"), 1000, vec![]).unwrap();
    client.assign_task(addr(11), 0).unwrap();
    assert_eq!(client.complete_task(addr(11), 0).err(), Some(ProError::NotAdminOrCreator));
    assert_eq!(client.complete_task(addr(10), 0).err(), Some(ProError::TaskNotCompleted));
    assert_eq!(client.complete_task(addr(10), 3).err(), Some(ProError::TaskNotFound));
    client.submit_work(addr(11), 0, text("u")).unwrap();
    // the creator may verify too: 2.5% of 1000 is 25
    let r = client.complete_task(addr(10), 0).unwrap();
    assert_eq!(
        r.transfers,
        vec![Transfer::Payout { to: addr(11), amount: 975 }, Transfer::Payout { to: addr(2), amount: 25 }]
    );
    assert_eq!(r.event, ProEvent::TaskVerified { task_id: 0, reward: 1000 });
    assert_eq!(client.get_escrow_balance(0), None);
    // a verified task is closed for good
    assert_eq!(client.complete_task(addr(10), 0).err(), Some(ProError::TaskNotCompleted));
    assert_eq!(client.dispute_task(addr(10), 0).err(), Some(ProError::NotDisputable));
    assert_eq!(client.cancel_task(addr(10), 0).err(), Some(ProError::NotCancellable));
}

#[test]
fn fee_rounds_down_and_small_fee_is_not_paid() {
    let mut client = TaskManagerPro::new();
    client.initialize(addr(1), 250, Address::contract(7, 7), addr(2)).unwrap();
    client.create_task(addr(10), text("t"), text("d"), 39, vec![]).unwrap();
    client.assign_task(addr(11), 0).unwrap();
    client.submit_work(addr(11), 0, vec![]).unwrap();
    // 39 * 250 / 10000 = 0.975, rounded down to 0: no fee transfer
    let r = client.complete_task(addr(1), 0).unwrap();
    assert_eq!(r.transfers, vec![Transfer::Payout { to: addr(11), amount: 39 }]);
}

#[test]
fn fee_overflow_is_refused() {
    let mut client = TaskManagerPro::new();
    client.initialize(addr(1), 4_000_000_000, Address::contract(7, 7), addr(2)).unwrap();
    client.create_task(addr(10), text("t"), text("d"), i128::MAX / 2, vec![]).unwrap();
    client.assign_task(addr(11), 0).unwrap();
    client.submit_work(addr(11), 0, vec![]).unwrap();
    assert_eq!(client.complete_task(addr(1), 0).err(), Some(ProError::Overflow));
    assert_eq!(client.get_task(0).unwrap().status, TaskStatus::Completed);
    assert_eq!(client.get_escrow_balance(0), Some(i128::MAX / 2));
}

#[test]
fn cancellation_rules() {
    let Setup { mut client, contract_id, mut token, .. } = setup_test_env();
    token.mint(addr(10), 100);
    let (_, r) = client.create_task(addr(10), text("t"), text("d"), 100, vec![]).unwrap();
    token.settle(&r);
    assert_eq!(client.cancel_task(addr(11), 0).err(), Some(ProError::NotCreator));
    assert_eq!(client.cancel_task(addr(10), 1).err(), Some(ProError::TaskNotFound));
    let r = client.cancel_task(addr(10), 0).unwrap();
    assert_eq!(r.event, ProEvent::TaskCancelled { task_id: 0, reward: 100 });
    token.settle(&r);
    assert_eq!(token.balance(contract_id), 0);
    assert_eq!(client.cancel_task(addr(10), 0).err(), Some(ProError::NotCancellable));
    assert_eq!(client.assign_task(addr(11), 0).err(), Some(ProError::TaskNotOpen));
}

#[test]
fn dispute_rules() {
    let Setup { mut client, .. } = setup_test_env();
    client.create_task(addr(10), text("t"), text("d"), 100, vec![]).unwrap();
    assert_eq!(client.dispute_task(addr(10), 0).err(), Some(ProError::NotDisputable));
    client.assign_task(addr(11), 0).unwrap();
    assert_eq!(client.dispute_task(addr(12), 0).err(), Some(ProError::NotCreatorOrAssignee));
    let r = client.dispute_task(addr(11), 0).unwrap();
    assert_eq!(r.event, ProEvent::TaskDisputed { task_id: 0, caller: addr(11) });
    assert_eq!(client.dispute_task(addr(10), 0).err(), Some(ProError::NotDisputable));
}

#[test]
fn resolution_rules() {
    let Setup { mut client, .. } = setup_test_env();
    client.create_task(addr(10), text("t"), text("d"), 1000, vec![]).unwrap();
    client.assign_task(addr(11), 0).unwrap();
    assert_eq!(client.resolve_dispute(addr(1), 0, 500, 500).err(), Some(ProError::TaskNotDisputed));
    client.dispute_task(addr(11), 0).unwrap();
    assert_eq!(client.resolve_dispute(addr(10), 0, 500, 500).err(), Some(ProError::NotAdmin));
    assert_eq!(client.resolve_dispute(addr(1), 5, 500, 500).err(), Some(ProError::TaskNotFound));
    assert_eq!(client.resolve_dispute(addr(1), 0, 500, 400).err(), Some(ProError::SplitMismatch));
    assert_eq!(client.resolve_dispute(addr(1), 0, i128::MAX, 1).err(), Some(ProError::Overflow));
    // the whole reward back to the creator: no fee
    let r = client.resolve_dispute(addr(1), 0, 1000, 0).unwrap();
    assert_eq!(r.transfers, vec![Transfer::Payout { to: addr(10), amount: 1000 }]);
    assert_eq!(r.event, ProEvent::DisputeResolved { task_id: 0, total_reward: 1000 });
    assert_eq!(client.get_task(0).unwrap().status, TaskStatus::Verified);
}

#[test]
fn resolution_before_initialization_is_refused() {
    let mut client = TaskManagerPro::new();
    assert_eq!(client.resolve_dispute(addr(1), 0, 1, 1).err(), Some(ProError::NotInitialized));
}

#[test]
fn escrow_balance_law_on_a_full_run() {
    let Setup { admin, contract_id, mut client, mut token, .. } = setup_test_env();
    for (who, amount) in [(addr(10), 700i128), (addr(11), 900), (addr(12), 1300)] {
        token.mint(who, amount);
        let (_, r) = client.create_task(who, text("t"), text("d"), amount, vec![]).unwrap();
        token.settle(&r);
    }
    let held = |c: &TaskManagerPro| (0..3).map(|i| c.get_escrow_balance(i).unwrap_or(0)).sum::<i128>();
    assert_eq!(held(&client), token.balance(contract_id));
    token.settle(&client.cancel_task(addr(10), 0).unwrap());
    assert_eq!(held(&client), token.balance(contract_id));
    client.assign_task(addr(20), 1).unwrap();
    client.submit_work(addr(20), 1, vec![]).unwrap();
    token.settle(&client.complete_task(admin, 1).unwrap());
    assert_eq!(held(&client), token.balance(contract_id));
    client.assign_task(addr(21), 2).unwrap();
    client.dispute_task(addr(12), 2).unwrap();
    token.settle(&client.resolve_dispute(admin, 2, 300, 1000).unwrap());
    assert_eq!(held(&client), token.balance(contract_id));
    assert_eq!(token.balance(contract_id), 0);
}

#[test]
fn settlement_with_a_negative_share_is_refused() {
    // A split must divide the task's own reward: a negative share would let
    // the other share draw on rewards escrowed for other tasks.
    let mut client = TaskManagerPro::new();
    client.initialize(addr(1), 0, Address::contract(7, 7), addr(2)).unwrap();
    client.create_task(addr(10), text("t"), text("d"), 100, vec![]).unwrap();
    client.assign_task(addr(11), 0).unwrap();
    client.dispute_task(addr(10), 0).unwrap();
    assert_eq!(client.resolve_dispute(addr(1), 0, -1, 101).err(), Some(ProError::NegativeShare));
    assert_eq!(client.resolve_dispute(addr(1), 0, 101, -1).err(), Some(ProError::NegativeShare));
    assert_eq!(client.get_task(0).unwrap().status, TaskStatus::Disputed);
    assert_eq!(client.get_escrow_balance(0), Some(100));
    let r = client.resolve_dispute(addr(1), 0, 0, 100).unwrap();
    assert_eq!(r.transfers, vec![Transfer::Payout { to: addr(11), amount: 100 }]);
}

#[test]
fn restore_takes_up_consistent_records_only() {
    let Setup { mut client, .. } = setup_test_env();
    client.create_task(addr(10), text("t"), text("d"), 100, vec![text("a")]).unwrap();
    client.assign_task(addr(11), 0).unwrap();
    let config = task_manager::pro::model::ProConfig {
        admin: client.get_admin().unwrap(),
        platform_fee_bps: client.get_platform_fee(),
        token_contract: client.get_token_contract().unwrap(),
        fee_recipient: client.get_fee_recipient().unwrap(),
    };
    let restored = TaskManagerPro::restore(Some(config), vec![client.get_task(0).unwrap()], vec![Some(100)]).unwrap();
    assert_eq!(restored.get_task(0).unwrap().assignee, Some(addr(11)));
    assert_eq!(restored.get_task_count(), 1);
    // escrow that does not match the reward
    assert!(TaskManagerPro::restore(Some(config), vec![client.get_task(0).unwrap()], vec![Some(99)]).is_none());
    // a task with no settings
    assert!(TaskManagerPro::restore(None, vec![client.get_task(0).unwrap()], vec![Some(100)]).is_none());
    // an in-progress task with no assignee
    let mut t = client.get_task(0).unwrap();
    t.assignee = None;
    assert!(TaskManagerPro::restore(Some(config), vec![t], vec![Some(100)]).is_none());
    // a closed task still holding escrow
    let mut t = client.get_task(0).unwrap();
    t.status = TaskStatus::Verified;
    assert!(TaskManagerPro::restore(Some(config), vec![t], vec![Some(100)]).is_none());
    // mismatched ids
    let mut t = client.get_task(0).unwrap();
    t.id = 3;
    assert!(TaskManagerPro::restore(Some(config), vec![t], vec![Some(100)]).is_none());
    assert!(TaskManagerPro::restore(None, vec![], vec![]).is_some());
}
