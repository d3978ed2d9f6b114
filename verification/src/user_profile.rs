use crate::address::Address;
use crate::address_book::{AddressBook, entries_map, keys_distinct};
use crate::text::copy_bytes;
use vstd::prelude::*;

verus! {

/// The reputation a new profile starts with.
pub const STARTING_REPUTATION: u32 = 100;

/// A contributor's on-chain profile. Text is kept as the bytes of the ledger
/// string.
#[derive(Debug)]
pub struct UserProfile {
    pub address: Address,
    pub username: Vec<u8>,
    pub reputation: u32,
    pub completed_tasks: u32,
    pub joined_at: u64,
    pub bio: Vec<u8>,
}

/// The mathematical content of a [`UserProfile`].
pub struct ProfileView {
    pub address: Address,
    pub username: Seq<u8>,
    pub reputation: u32,
    pub completed_tasks: u32,
    pub joined_at: u64,
    pub bio: Seq<u8>,
}

impl View for UserProfile {
    type V = ProfileView;

    open spec fn view(&self) -> ProfileView {
        ProfileView {
            address: self.address,
            username: self.username@,
            reputation: self.reputation,
            completed_tasks: self.completed_tasks,
            joined_at: self.joined_at,
            bio: self.bio@,
        }
    }
}

impl UserProfile {
    /// A copy of the profile.
    pub fn duplicate(&self) -> (copy: UserProfile)
        ensures
            copy@ == self@,
    {
        UserProfile {
            address: self.address,
            username: copy_bytes(&self.username),
            reputation: self.reputation,
            completed_tasks: self.completed_tasks,
            joined_at: self.joined_at,
            bio: copy_bytes(&self.bio),
        }
    }
}

/// Why the profile contract refused a request.
#[derive(Clone, Copy, PartialEq, Eq, Debug, Structural)]
pub enum ProfileError {
    ProfileExists,
    ProfileNotFound,
    Overflow,
}

/// The profiles the contract holds, by owner.
pub struct ProfileRegistry {
    pub profiles: Map<Address, ProfileView>,
}

impl ProfileRegistry {
    pub open spec fn create_profile(
        self,
        user: Address,
        username: Seq<u8>,
        bio: Seq<u8>,
        now: u64,
    ) -> Result<ProfileRegistry, ProfileError> {
        if self.profiles.contains_key(user) {
            Err(ProfileError::ProfileExists)
        } else {
            Ok(
                ProfileRegistry {
                    profiles: self.profiles.insert(
                        user,
                        ProfileView {
                            address: user,
                            username,
                            reputation: STARTING_REPUTATION,
                            completed_tasks: 0,
                            joined_at: now,
                            bio,
                        },
                    ),
                },
            )
        }
    }

    pub open spec fn update_bio(self, user: Address, new_bio: Seq<u8>) -> Result<
        ProfileRegistry,
        ProfileError,
    > {
        if !self.profiles.contains_key(user) {
            Err(ProfileError::ProfileNotFound)
        } else {
            Ok(
                ProfileRegistry {
                    profiles: self.profiles.insert(
                        user,
                        ProfileView { bio: new_bio, ..self.profiles[user] },
                    ),
                },
            )
        }
    }

    pub open spec fn reward_contribution(self, user: Address, points: u32) -> Result<
        ProfileRegistry,
        ProfileError,
    > {
        if !self.profiles.contains_key(user) {
            Err(ProfileError::ProfileNotFound)
        } else {
            let p = self.profiles[user];
            if p.reputation + points > u32::MAX || p.completed_tasks + 1 > u32::MAX {
                Err(ProfileError::Overflow)
            } else {
                Ok(
                    ProfileRegistry {
                        profiles: self.profiles.insert(
                            user,
                            ProfileView {
                                reputation: (p.reputation + points) as u32,
                                completed_tasks: (p.completed_tasks + 1) as u32,
                                ..p
                            },
                        ),
                    },
                )
            }
        }
    }
}

/// The profile contract: one profile per address.
pub struct UserProfileManager {
    profiles: AddressBook<UserProfile>,
}

impl View for UserProfileManager {
    type V = ProfileRegistry;

    closed spec fn view(&self) -> ProfileRegistry {
        ProfileRegistry { profiles: self.profiles@.map_values(|p: UserProfile| p@) }
    }
}

/// `result` is what `step` prescribes for a request that took the contract
/// from `pre` to `post`; a refusal changes nothing.
pub open spec fn profile_answers(
    pre: ProfileRegistry,
    post: ProfileRegistry,
    step: Result<ProfileRegistry, ProfileError>,
    result: Result<(), ProfileError>,
) -> bool {
    match result {
        Ok(()) => step == Ok::<ProfileRegistry, ProfileError>(post),
        Err(e) => step == Err::<ProfileRegistry, ProfileError>(e) && post == pre,
    }
}

impl UserProfileManager {
    pub closed spec fn wf(&self) -> bool {
        self.profiles.wf()
    }

    /// A contract with no profiles.
    pub fn new() -> (manager: UserProfileManager)
        ensures
            manager.wf(),
            manager@.profiles == Map::<Address, ProfileView>::empty(),
    {
        let manager = UserProfileManager { profiles: AddressBook::new() };
        assert(manager@.profiles =~= Map::<Address, ProfileView>::empty());
        manager
    }

    /// The contract holding the given profiles, each filed under an owner;
    /// `None` when an owner has two.
    pub fn restore(profiles: Vec<(Address, UserProfile)>) -> (manager: Option<UserProfileManager>)
        ensures
            manager matches Some(m) ==> m.wf() && m@.profiles == entries_map(profiles@).map_values(
                |p: UserProfile| p@,
            ),
            manager is Some <==> keys_distinct(profiles@),
    {
        match AddressBook::from_entries(profiles) {
            Some(book) => Some(UserProfileManager { profiles: book }),
            None => None,
        }
    }

    /// Creates `user`'s profile with the starting reputation, no completed
    /// tasks and `now` as the joining time; refused if it exists.
    pub fn create_profile(
        &mut self,
        user: Address,
        username: Vec<u8>,
        bio: Vec<u8>,
        now: u64,
    ) -> (result: Result<(), ProfileError>)
        requires
            old(self).wf(),
        ensures
            final(self).wf(),
            profile_answers(
                old(self)@,
                final(self)@,
                old(self)@.create_profile(user, username@, bio@, now),
                result,
            ),
    {
        if self.profiles.get(&user).is_some() {
            return Err(ProfileError::ProfileExists);
        }
        let profile = UserProfile {
            address: user,
            username,
            reputation: STARTING_REPUTATION,
            completed_tasks: 0,
            joined_at: now,
            bio,
        };
        let ghost pv = profile@;
        self.profiles.insert(user, profile);
        assert(self@.profiles =~= old(self)@.profiles.insert(user, pv));
        Ok(())
    }

    /// Replaces the bio of `user`'s profile.
    pub fn update_bio(&mut self, user: Address, new_bio: Vec<u8>) -> (result: Result<
        (),
        ProfileError,
    >)
        requires
            old(self).wf(),
        ensures
            final(self).wf(),
            profile_answers(old(self)@, final(self)@, old(self)@.update_bio(user, new_bio@), result),
    {
        match self.profiles.remove(&user) {
            None => {
                assert(self@.profiles =~= old(self)@.profiles);
                Err(ProfileError::ProfileNotFound)
            },
            Some(mut profile) => {
                profile.bio = new_bio;
                let ghost pv = profile@;
                self.profiles.insert(user, profile);
                assert(self@.profiles =~= old(self)@.profiles.insert(user, pv));
                Ok(())
            },
        }
    }

    /// Adds `points` to `user`'s reputation and counts one more completed
    /// task. Any caller may do this; `contract_admin` is the caller.
    pub fn reward_contribution(&mut self, contract_admin: Address, user: Address, points: u32) -> (result:
        Result<(), ProfileError>)
        requires
            old(self).wf(),
        ensures
            final(self).wf(),
            profile_answers(
                old(self)@,
                final(self)@,
                old(self)@.reward_contribution(user, points),
                result,
            ),
    {
        match self.profiles.get(&user) {
            None => {
                return Err(ProfileError::ProfileNotFound);
            },
            Some(profile) => {
                if profile.reputation.checked_add(points).is_none()
                    || profile.completed_tasks.checked_add(1).is_none() {
                    return Err(ProfileError::Overflow);
                }
            },
        }
        let mut profile = self.profiles.remove(&user).unwrap();
        profile.reputation = profile.reputation + points;
        profile.completed_tasks = profile.completed_tasks + 1;
        let ghost pv = profile@;
        self.profiles.insert(user, profile);
        assert(self@.profiles =~= old(self)@.profiles.insert(user, pv));
        Ok(())
    }

    /// A copy of `user`'s profile, if there is one.
    pub fn get_profile(&self, user: Address) -> (profile: Option<UserProfile>)
        requires
            self.wf(),
        ensures
            match profile {
                Some(p) => self@.profiles.contains_key(user) && p@ == self@.profiles[user],
                None => !self@.profiles.contains_key(user),
            },
    {
        match self.profiles.get(&user) {
            Some(p) => Some(p.duplicate()),
            None => None,
        }
    }
}

/// A created profile reads back with the given username and bio, the
/// starting reputation, no completed tasks and the creation time; nobody
/// else's profile changes.
pub proof fn law_created_profile_reads_back(
    s: ProfileRegistry,
    user: Address,
    username: Seq<u8>,
    bio: Seq<u8>,
    now: u64,
)
    ensures
        s.create_profile(user, username, bio, now) matches Ok(t) ==> {
            &&& t.profiles.contains_key(user)
            &&& t.profiles[user] == ProfileView {
                address: user,
                username,
                reputation: STARTING_REPUTATION,
                completed_tasks: 0,
                joined_at: now,
                bio,
            }
            &&& t.profiles.remove(user) == s.profiles.remove(user)
        },
{
    match s.create_profile(user, username, bio, now) {
        Ok(t) => {
            assert(t.profiles.remove(user) =~= s.profiles.remove(user));
        },
        Err(_) => {},
    }
}

/// A profile is created once: a second creation for the same user is
/// refused.
pub proof fn law_profile_created_once(
    s: ProfileRegistry,
    user: Address,
    username: Seq<u8>,
    bio: Seq<u8>,
    now: u64,
    username2: Seq<u8>,
    bio2: Seq<u8>,
    now2: u64,
)
    ensures
        s.create_profile(user, username, bio, now) matches Ok(t) ==> t.create_profile(
            user,
            username2,
            bio2,
            now2,
        ) == Err::<ProfileRegistry, ProfileError>(ProfileError::ProfileExists),
{
}

/// Updating a bio changes that bio and nothing else.
pub proof fn law_update_bio_changes_only_bio(s: ProfileRegistry, user: Address, new_bio: Seq<u8>)
    ensures
        s.update_bio(user, new_bio) matches Ok(t) ==> {
            &&& t.profiles[user] == ProfileView { bio: new_bio, ..s.profiles[user] }
            &&& t.profiles.remove(user) == s.profiles.remove(user)
        },
{
    match s.update_bio(user, new_bio) {
        Ok(t) => {
            assert(t.profiles.remove(user) =~= s.profiles.remove(user));
        },
        Err(_) => {},
    }
}

/// Rewards accumulate: two accepted rewards add both amounts of points to
/// the reputation and two completed tasks, and leave the rest of the
/// profile as it was.
pub proof fn law_rewards_accumulate(s: ProfileRegistry, user: Address, first: u32, second: u32)
    ensures
        s.reward_contribution(user, first) matches Ok(t) ==> (t.reward_contribution(user, second) matches Ok(
            u,
        ) ==> {
            &&& u.profiles[user].reputation == s.profiles[user].reputation + first + second
            &&& u.profiles[user].completed_tasks == s.profiles[user].completed_tasks + 2
            &&& u.profiles[user].username == s.profiles[user].username
            &&& u.profiles[user].bio == s.profiles[user].bio
            &&& u.profiles[user].joined_at == s.profiles[user].joined_at
        }),
{
}

/// Which profile requests are accepted: a profile is created only for a
/// user without one, a bio is updated and a reward given only for a user
/// with one, and a reward is refused only when a count would overflow.
pub proof fn law_profile_requests_accepted(
    s: ProfileRegistry,
    user: Address,
    username: Seq<u8>,
    bio: Seq<u8>,
    now: u64,
    points: u32,
)
    ensures
        s.create_profile(user, username, bio, now) is Ok <==> !s.profiles.contains_key(user),
        s.update_bio(user, bio) is Ok <==> s.profiles.contains_key(user),
        s.reward_contribution(user, points) is Ok <==> s.profiles.contains_key(user)
            && s.profiles[user].reputation + points <= u32::MAX && s.profiles[user].completed_tasks + 1
            <= u32::MAX,
{
}

/// A reward adds its points to the user's reputation and one to the user's
/// completed tasks, keeping the rest of the profile and every other profile.
pub proof fn law_reward_adds_points(s: ProfileRegistry, user: Address, points: u32)
    ensures
        s.reward_contribution(user, points) matches Ok(t) ==> {
            &&& t.profiles[user].reputation == s.profiles[user].reputation + points
            &&& t.profiles[user].completed_tasks == s.profiles[user].completed_tasks + 1
            &&& t.profiles[user].username == s.profiles[user].username
            &&& t.profiles[user].bio == s.profiles[user].bio
            &&& t.profiles[user].address == s.profiles[user].address
            &&& t.profiles[user].joined_at == s.profiles[user].joined_at
            &&& t.profiles.remove(user) == s.profiles.remove(user)
        },
{
    match s.reward_contribution(user, points) {
        Ok(t) => {
            assert(t.profiles.remove(user) =~= s.profiles.remove(user));
        },
        Err(_) => {},
    }
}

} // verus!
