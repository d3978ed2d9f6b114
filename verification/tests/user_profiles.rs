use task_manager::address::Address;
use task_manager::user_profile::{ProfileError, UserProfile, UserProfileManager};

fn text(s: &str) -> Vec<u8> {
    s.as_bytes().to_vec()
}

#[test]
fn test_user_profile_lifecycle() {
    let user = Address::account(1, 1);
    let admin = Address::account(2, 2);
    let mut client = UserProfileManager::new();

    let username = text("stellar_dev");
    let bio = text("Soroban Smart Contract Developer");
    client.create_profile(user, username.clone(), bio.clone(), 0).unwrap();

    let profile = client.get_profile(user).unwrap();
    assert_eq!(profile.username, username);
    assert_eq!(profile.bio, bio);
    assert_eq!(profile.reputation, 100);
    assert_eq!(profile.completed_tasks, 0);

    let new_bio = text("Expert Rust & Soroban Engineer");
    client.update_bio(user, new_bio.clone()).unwrap();
    assert_eq!(client.get_profile(user).unwrap().bio, new_bio);

    client.reward_contribution(admin, user, 50).unwrap();
    let updated = client.get_profile(user).unwrap();
    assert_eq!(updated.reputation, 150);
    assert_eq!(updated.completed_tasks, 1);
}

#[test]
fn profile_is_created_once() {
    let user = Address::account(1, 1);
    let mut client = UserProfileManager::new();
    client.create_profile(user, text("first"), text("bio"), 42).unwrap();
    assert_eq!(client.create_profile(user, text("second"), text("x"), 43), Err(ProfileError::ProfileExists));
    let p = client.get_profile(user).unwrap();
    assert_eq!(p.username, text("first"));
    assert_eq!(p.joined_at, 42);
    assert_eq!(p.address, user);
}

#[test]
fn missing_profile_is_refused() {
    let mut client = UserProfileManager::new();
    let user = Address::account(3, 3);
    assert!(client.get_profile(user).is_none());
    assert_eq!(client.update_bio(user, text("b")), Err(ProfileError::ProfileNotFound));
    assert_eq!(client.reward_contribution(user, user, 1), Err(ProfileError::ProfileNotFound));
}

#[test]
fn rewards_accumulate_and_overflow_is_refused() {
    let user = Address::account(1, 1);
    let other = Address::account(9, 9);
    let mut client = UserProfileManager::new();
    client.create_profile(user, text("u"), text("b"), 0).unwrap();
    client.create_profile(other, text("o"), text("c"), 5).unwrap();
    client.reward_contribution(other, user, 7).unwrap();
    client.reward_contribution(other, user, 8).unwrap();
    let p = client.get_profile(user).unwrap();
    assert_eq!((p.reputation, p.completed_tasks), (115, 2));
    assert_eq!(client.reward_contribution(other, user, u32::MAX), Err(ProfileError::Overflow));
    let p = client.get_profile(user).unwrap();
    assert_eq!((p.reputation, p.completed_tasks), (115, 2));
    let o = client.get_profile(other).unwrap();
    assert_eq!((o.reputation, o.completed_tasks, o.bio), (100, 0, text("c")));
}

#[test]
fn restore_refuses_two_profiles_for_one_owner() {
    let user = Address::account(1, 1);
    let profile = |name: &str| UserProfile {
        address: user,
        username: text(name),
        reputation: 7,
        completed_tasks: 2,
        joined_at: 3,
        bio: text("b"),
    };
    let restored = UserProfileManager::restore(vec![(user, profile("one"))]).unwrap();
    let p = restored.get_profile(user).unwrap();
    assert_eq!((p.username, p.reputation, p.completed_tasks), (text("one"), 7, 2));
    assert!(UserProfileManager::restore(vec![(user, profile("one")), (user, profile("two"))]).is_none());
    assert!(UserProfileManager::restore(vec![]).unwrap().get_profile(user).is_none());
}
