use task_manager::address::Address;
use task_manager::manager::contract::TaskManagerContract;
use task_manager::manager::model::{ManagerError, TaskStatus, UserProfile};

fn text(s: &str) -> Vec<u8> {
    s.as_bytes().to_vec()
}

fn addr(n: u128) -> Address {
    Address::account(n, 0)
}

#[test]
fn test_issue_1_initialize() {
    let mut client = TaskManagerContract::new();
    let admin = addr(1);
    client.initialize(admin, 100).unwrap();
}

#[test]
fn test_initialize() {
    let mut client = TaskManagerContract::new();
    let admin = addr(1);
    client.initialize(admin, 100).unwrap();

    // initializing again is refused
    let result = client.initialize(admin, 200);
    assert!(result.is_err());
}

#[test]
fn test_create_task() {
    let mut client = TaskManagerContract::new();
    let admin = addr(1);
    client.initialize(admin, 100).unwrap();

    let creator = addr(2);
    let title = text("Implement Payment System");
    let description = text("Add payment processing with fee deduction");
    let tags = vec![text("payment"), text("feature")];

    let task_id = client.create_task(creator, title, description, 10000, None, tags, 0).unwrap();

    assert_eq!(task_id, 0);
}

#[test]
fn test_assign_task() {
    let mut client = TaskManagerContract::new();
    let admin = addr(1);
    client.initialize(admin, 100).unwrap();

    let creator = addr(2);
    let assignee = addr(3);

    let title = text("Test Task");
    let description = text("Test Description");
    let tags = vec![text("test")];

    let task_id = client.create_task(creator, title, description, 1000, None, tags, 0).unwrap();

    client.assign_task(admin, task_id, assignee).unwrap();
}

// ---- scenarios and laws on concrete values ----

fn ready() -> TaskManagerContract {
    let mut c = TaskManagerContract::new();
    c.initialize(addr(1), 100).unwrap();
    c
}

#[test]
fn initialize_twice_is_refused_with_its_error() {
    let mut c = ready();
    assert_eq!(c.initialize(addr(9), 5), Err(ManagerError::AlreadyInitialized));
}

#[test]
fn task_validation() {
    let mut c = ready();
    assert_eq!(c.create_task(addr(2), text("t"), vec![], 0, None, vec![], 0), Err(ManagerError::RewardNotPositive));
    assert_eq!(c.create_task(addr(2), vec![], vec![], 5, None, vec![], 0), Err(ManagerError::InvalidTitle));
    assert_eq!(c.create_task(addr(2), vec![b'a'; 101], vec![], 5, None, vec![], 0), Err(ManagerError::InvalidTitle));
    assert_eq!(c.create_task(addr(2), vec![b'a'; 100], vec![b'd'; 5001], 5, None, vec![], 0), Err(ManagerError::DescriptionTooLong));
    assert_eq!(c.create_task(addr(2), vec![b'a'; 100], vec![b'd'; 5000], 5, Some(77), vec![], 3), Ok(0));
    let t = c.get_task(0).unwrap();
    assert_eq!((t.created_at, t.deadline, t.status, t.assignee), (3, Some(77), TaskStatus::Open, None));
    let r = c.get_task_reward(0).unwrap();
    assert_eq!((r.task_id, r.amount, r.claimed, r.released_at), (0, 5, false, None));
}

#[test]
fn paused_contract_refuses_tasks() {
    let mut c = ready();
    assert_eq!(c.set_paused(addr(2), true), Err(ManagerError::NotAuthorized));
    c.set_paused(addr(1), true).unwrap();
    assert_eq!(c.create_task(addr(2), text("t"), vec![], 5, None, vec![], 0), Err(ManagerError::Paused));
    c.set_paused(addr(1), false).unwrap();
    assert_eq!(c.create_task(addr(2), text("t"), vec![], 5, None, vec![], 0), Ok(0));
}

#[test]
fn tasks_can_be_created_before_initialization() {
    let mut c = TaskManagerContract::new();
    assert_eq!(c.create_task(addr(2), text("t"), vec![], 5, None, vec![], 0), Ok(0));
    assert_eq!(c.assign_task(addr(1), 0, addr(3)), Err(ManagerError::NotInitialized));
    assert_eq!(c.set_paused(addr(1), true), Err(ManagerError::NotInitialized));
}

#[test]
fn initialization_resets_the_counter() {
    let mut c = TaskManagerContract::new();
    c.create_task(addr(2), text("early"), vec![], 5, None, vec![], 0).unwrap();
    c.initialize(addr(1), 0).unwrap();
    assert_eq!(c.get_task_counter(), 0);
    // the next task is written under id 0 again
    assert_eq!(c.create_task(addr(4), text("later"), vec![], 8, None, vec![], 1), Ok(0));
    assert_eq!(c.get_task(0).unwrap().title, text("later"));
    assert_eq!(c.get_task_reward(0).unwrap().amount, 8);
}

#[test]
fn full_workflow_and_payment_release() {
    let mut c = ready();
    let admin = addr(1);
    let creator = addr(2);
    let worker = addr(3);
    c.upsert_user_profile(worker, Some(text("worker")), None, 50).unwrap();
    let id = c.create_task(creator, text("t"), vec![], 1000, None, vec![], 0).unwrap();
    assert_eq!(c.assign_task(addr(9), id, worker), Err(ManagerError::NotAuthorized));
    assert_eq!(c.assign_task(admin, 4, worker), Err(ManagerError::TaskNotFound));
    c.assign_task(admin, id, worker).unwrap();
    assert_eq!(c.user_task(worker, id), Some(id));
    assert_eq!(c.user_task(creator, id), None);
    assert_eq!(c.assign_task(admin, id, creator), Err(ManagerError::TaskNotOpen));
    assert_eq!(c.update_task_status(creator, id, TaskStatus::InProgress), Err(ManagerError::NotAssigneeToStart));
    assert_eq!(c.update_task_status(worker, id, TaskStatus::Completed), Err(ManagerError::NotInProgress));
    assert_eq!(c.release_payment(admin, id, 1), Err(ManagerError::NotVerified));
    c.update_task_status(worker, id, TaskStatus::InProgress).unwrap();
    assert_eq!(c.update_task_status(worker, id, TaskStatus::InProgress), Err(ManagerError::NotAssigned));
    assert_eq!(c.update_task_status(creator, id, TaskStatus::Completed), Err(ManagerError::NotAssigneeToComplete));
    assert_eq!(c.update_task_status(admin, id, TaskStatus::Verified), Err(ManagerError::NotCompleted));
    c.update_task_status(worker, id, TaskStatus::Completed).unwrap();
    assert_eq!(c.update_task_status(worker, id, TaskStatus::Verified), Err(ManagerError::NotAuthorized));
    assert_eq!(c.update_task_status(creator, id, TaskStatus::Cancelled), Err(ManagerError::CannotCancelCompleted));
    c.update_task_status(admin, id, TaskStatus::Verified).unwrap();
    assert_eq!(c.update_task_status(admin, id, TaskStatus::Open), Err(ManagerError::InvalidTransition));
    assert_eq!(c.update_task_status(admin, id, TaskStatus::Assigned), Err(ManagerError::InvalidTransition));
    c.release_payment(admin, id, 77).unwrap();
    let record = c.get_task_reward(id).unwrap();
    assert_eq!((record.claimed, record.released_at), (true, Some(77)));
    let p = c.get_user_profile(worker).unwrap();
    assert_eq!((p.reputation, p.completed_tasks, p.joined_at), (10, 1, 50));
    assert_eq!(c.release_payment(admin, id, 78), Err(ManagerError::AlreadyReleased));
    assert_eq!(c.get_user_profile(worker).unwrap().reputation, 10);
}

#[test]
fn cancellation_by_creator_or_admin() {
    let mut c = ready();
    let id = c.create_task(addr(2), text("t"), vec![], 10, None, vec![], 0).unwrap();
    assert_eq!(c.update_task_status(addr(5), id, TaskStatus::Cancelled), Err(ManagerError::NotCreatorOrAdmin));
    c.update_task_status(addr(2), id, TaskStatus::Cancelled).unwrap();
    // cancelling again is accepted and changes nothing
    c.update_task_status(addr(1), id, TaskStatus::Cancelled).unwrap();
    assert_eq!(c.get_task(id).unwrap().status, TaskStatus::Cancelled);
    assert_eq!(c.assign_task(addr(1), id, addr(3)), Err(ManagerError::TaskNotOpen));
}

#[test]
fn cancellation_by_a_stranger_before_initialization() {
    let mut c = TaskManagerContract::new();
    let id = c.create_task(addr(2), text("t"), vec![], 10, None, vec![], 0).unwrap();
    assert_eq!(c.update_task_status(addr(5), id, TaskStatus::Cancelled), Err(ManagerError::NotInitialized));
    c.update_task_status(addr(2), id, TaskStatus::Cancelled).unwrap();
}

#[test]
fn profile_upsert_rules() {
    let mut c = ready();
    let u = addr(4);
    assert_eq!(c.upsert_user_profile(u, Some(text("ab")), None, 1), Err(ManagerError::InvalidUsername));
    assert_eq!(c.upsert_user_profile(u, Some(vec![b'x'; 31]), None, 1), Err(ManagerError::InvalidUsername));
    assert_eq!(c.upsert_user_profile(u, None, Some(vec![b'x'; 501]), 1), Err(ManagerError::BioTooLong));
    assert!(c.get_user_profile(u).is_none());
    c.upsert_user_profile(u, None, Some(vec![b'x'; 500]), 1).unwrap();
    let p = c.get_user_profile(u).unwrap();
    assert_eq!((p.address, p.username, p.reputation, p.completed_tasks, p.joined_at), (u, None, 0, 0, 1));
    c.upsert_user_profile(u, Some(text("abc")), None, 9).unwrap();
    let p = c.get_user_profile(u).unwrap();
    assert_eq!(p.username, Some(text("abc")));
    assert_eq!(p.bio, Some(vec![b'x'; 500]));
    assert_eq!(p.joined_at, 1);
}

#[test]
fn release_without_profile_only_marks_the_payment() {
    let mut c = ready();
    let id = c.create_task(addr(2), text("t"), vec![], 10, None, vec![], 0).unwrap();
    c.assign_task(addr(1), id, addr(3)).unwrap();
    c.update_task_status(addr(3), id, TaskStatus::InProgress).unwrap();
    c.update_task_status(addr(3), id, TaskStatus::Completed).unwrap();
    c.update_task_status(addr(1), id, TaskStatus::Verified).unwrap();
    assert_eq!(c.release_payment(addr(2), id, 5), Err(ManagerError::NotAuthorized));
    c.release_payment(addr(1), id, 5).unwrap();
    assert!(c.get_user_profile(addr(3)).is_none());
    assert!(c.get_task_reward(id).unwrap().claimed);
}

#[test]
fn fee_overflow_blocks_release() {
    let mut c = TaskManagerContract::new();
    c.initialize(addr(1), u32::MAX).unwrap();
    let id = c.create_task(addr(2), text("t"), vec![], i128::MAX, None, vec![], 0).unwrap();
    c.assign_task(addr(1), id, addr(3)).unwrap();
    c.update_task_status(addr(3), id, TaskStatus::InProgress).unwrap();
    c.update_task_status(addr(3), id, TaskStatus::Completed).unwrap();
    c.update_task_status(addr(1), id, TaskStatus::Verified).unwrap();
    assert_eq!(c.release_payment(addr(1), id, 5), Err(ManagerError::Overflow));
    assert!(!c.get_task_reward(id).unwrap().claimed);
}

#[test]
fn listing_by_status_with_pages() {
    let mut c = ready();
    for i in 0..5u32 {
        c.create_task(addr(2), text("t"), vec![], 10 + i as i128, None, vec![], 0).unwrap();
    }
    c.assign_task(addr(1), 1, addr(3)).unwrap();
    c.assign_task(addr(1), 3, addr(3)).unwrap();
    let open: Vec<u32> = c.get_tasks_by_status(TaskStatus::Open, 0, 10).unwrap().iter().map(|t| t.id).collect();
    assert_eq!(open, vec![0, 2, 4]);
    let page1: Vec<u32> = c.get_tasks_by_status(TaskStatus::Open, 1, 2).unwrap().iter().map(|t| t.id).collect();
    assert_eq!(page1, vec![2]);
    let assigned: Vec<u32> = c.get_tasks_by_status(TaskStatus::Assigned, 0, 3).unwrap().iter().map(|t| t.id).collect();
    assert_eq!(assigned, vec![1]);
    assert!(c.get_tasks_by_status(TaskStatus::Open, 3, 2).unwrap().is_empty());
    assert_eq!(c.get_tasks_by_status(TaskStatus::Open, u32::MAX, 2).err(), Some(ManagerError::Overflow));
    assert_eq!(c.get_tasks_by_status(TaskStatus::Open, 1, u32::MAX).err(), Some(ManagerError::Overflow));
}

#[test]
fn restore_checks_records() {
    let mut c = ready();
    let id = c.create_task(addr(2), text("t"), vec![], 10, None, vec![], 0).unwrap();
    c.assign_task(addr(1), id, addr(3)).unwrap();
    let task = || c.get_task(id).unwrap();
    let reward = c.get_task_reward(id).unwrap();
    let profile = |owner: Address| UserProfile {
        address: owner,
        username: None,
        reputation: 1,
        completed_tasks: 0,
        joined_at: 0,
        bio: None,
    };
    let ok = TaskManagerContract::restore(Some(addr(1)), 100, false, 1, vec![task()], vec![reward], vec![(addr(3), profile(addr(3)))], vec![(addr(3), id)]).unwrap();
    assert_eq!(ok.user_task(addr(3), id), Some(id));
    assert_eq!(ok.get_user_profile(addr(3)).unwrap().reputation, 1);
    assert_eq!(ok.get_task(id).unwrap().status, TaskStatus::Assigned);
    // counter past the stored tasks
    assert!(TaskManagerContract::restore(Some(addr(1)), 100, false, 2, vec![task()], vec![reward], vec![], vec![]).is_none());
    // a profile filed under another owner
    assert!(TaskManagerContract::restore(Some(addr(1)), 100, false, 1, vec![task()], vec![reward], vec![(addr(4), profile(addr(3)))], vec![]).is_none());
    // two profiles for one owner
    assert!(TaskManagerContract::restore(Some(addr(1)), 100, false, 1, vec![task()], vec![reward], vec![(addr(3), profile(addr(3))), (addr(3), profile(addr(3)))], vec![]).is_none());
    // a claimed payment on a task that is not verified
    let mut claimed = reward;
    claimed.claimed = true;
    claimed.released_at = Some(5);
    assert!(TaskManagerContract::restore(Some(addr(1)), 100, false, 1, vec![task()], vec![claimed], vec![], vec![]).is_none());
}

#[test]
fn pages_together_list_each_matching_task_once() {
    let mut c = ready();
    for i in 0..7u32 {
        c.create_task(addr(2), text("t"), vec![], 10 + i as i128, None, vec![], 0).unwrap();
    }
    for id in [1u32, 4, 5] {
        c.assign_task(addr(1), id, addr(3)).unwrap();
    }
    let mut together = Vec::new();
    for page in 0..3u32 {
        together.extend(c.get_tasks_by_status(TaskStatus::Open, page, 3).unwrap().iter().map(|t| t.id));
    }
    assert_eq!(together, vec![0, 2, 3, 6]);
}

#[test]
fn only_an_accepted_upsert_creates_a_profile() {
    let mut c = ready();
    let u = addr(4);
    assert_eq!(c.upsert_user_profile(u, Some(text("no")), None, 1), Err(ManagerError::InvalidUsername));
    assert!(c.get_user_profile(u).is_none());
    c.upsert_user_profile(u, None, None, 2).unwrap();
    assert_eq!(c.get_user_profile(u).unwrap().joined_at, 2);
}
