//! The registry of users, keyed by user id.
use vstd::prelude::*;
use vstd::hash_map::StringHashMap;
use crate::error::JobError;

verus! {

/// A registered user with its reputation and job counters.
#[derive(Debug, Clone, PartialEq, Eq)]
pub struct User {
    pub id: String,
    /// Stored score, moved by completions and disputes. It may go below zero,
    /// and a change that would leave the range of `i64` stops at its bound.
    pub reputation: i64,
    /// Jobs posted with this user as client.
    pub assigned_jobs: u32,
    /// Jobs completed with this user as client.
    pub completed_jobs: u32,
}

/// `x` held within the range of `i64`.
pub open spec fn clamp_i64(x: int) -> i64 {
    if x > i64::MAX {
        i64::MAX
    } else if x < i64::MIN {
        i64::MIN
    } else {
        x as i64
    }
}

/// One more than `x`, staying at the largest `u32`.
pub open spec fn bump_u32(x: u32) -> u32 {
    if x == u32::MAX {
        x
    } else {
        (x + 1) as u32
    }
}

/// A user just registered under `id`.
pub open spec fn fresh_user(id: String) -> User {
    User { id, reputation: 0, assigned_jobs: 0, completed_jobs: 0 }
}

/// `u` with `delta` added to its reputation, held within `i64`.
pub open spec fn with_reputation_delta(u: User, delta: int) -> User {
    User {
        id: u.id,
        reputation: clamp_i64(u.reputation + delta),
        assigned_jobs: u.assigned_jobs,
        completed_jobs: u.completed_jobs,
    }
}

/// `u` with one more assigned job.
pub open spec fn with_assigned_bumped(u: User) -> User {
    User {
        id: u.id,
        reputation: u.reputation,
        assigned_jobs: bump_u32(u.assigned_jobs),
        completed_jobs: u.completed_jobs,
    }
}

/// `u` with one more completed job.
pub open spec fn with_completed_bumped(u: User) -> User {
    User {
        id: u.id,
        reputation: u.reputation,
        assigned_jobs: u.assigned_jobs,
        completed_jobs: bump_u32(u.completed_jobs),
    }
}

/// The users after adding `delta` to the reputation of `id`; unchanged if `id` is unknown.
pub open spec fn users_with_reputation_delta(
    m: Map<Seq<char>, User>,
    id: Seq<char>,
    delta: int,
) -> Map<Seq<char>, User> {
    if m.contains_key(id) {
        m.insert(id, with_reputation_delta(m[id], delta))
    } else {
        m
    }
}

/// The users after counting one more assigned job for `id`; unchanged if `id` is unknown.
pub open spec fn users_with_assigned_bumped(m: Map<Seq<char>, User>, id: Seq<char>) -> Map<
    Seq<char>,
    User,
> {
    if m.contains_key(id) {
        m.insert(id, with_assigned_bumped(m[id]))
    } else {
        m
    }
}

/// The users after counting one more completed job for `id`; unchanged if `id` is unknown.
pub open spec fn users_with_completed_bumped(m: Map<Seq<char>, User>, id: Seq<char>) -> Map<
    Seq<char>,
    User,
> {
    if m.contains_key(id) {
        m.insert(id, with_completed_bumped(m[id]))
    } else {
        m
    }
}

/// Adds `delta` to `value`, stopping at the bounds of `i64`.
pub fn saturating_shift(value: i64, delta: i64) -> (r: i64)
    ensures
        r == clamp_i64(value + delta),
{
    if delta > 0 && value > i64::MAX - delta {
        i64::MAX
    } else if delta < 0 && value < i64::MIN - delta {
        i64::MIN
    } else {
        value + delta
    }
}

impl User {
    /// A user with zero reputation and zero counters.
    pub fn new(id: String) -> (r: User)
        ensures
            r == fresh_user(id),
    {
        User { id, reputation: 0, assigned_jobs: 0, completed_jobs: 0 }
    }

    /// A field-by-field copy.
    pub fn duplicate(&self) -> (r: User)
        ensures
            r == *self,
    {
        User {
            id: self.id.clone(),
            reputation: self.reputation,
            assigned_jobs: self.assigned_jobs,
            completed_jobs: self.completed_jobs,
        }
    }
}

/// The users known to the marketplace, keyed by id.
pub struct UserRegistry {
    users: StringHashMap<User>,
}

impl View for UserRegistry {
    type V = Map<Seq<char>, User>;

    closed spec fn view(&self) -> Map<Seq<char>, User> {
        self.users@
    }
}

impl UserRegistry {
    /// Each user is stored under its own id.
    pub closed spec fn wf(&self) -> bool {
        forall|k: Seq<char>| #[trigger] self.users@.contains_key(k) ==> self.users@[k].id@ == k
    }

    /// An empty registry.
    pub fn new() -> (r: UserRegistry)
        ensures
            r.wf(),
            r@ == Map::<Seq<char>, User>::empty(),
    {
        UserRegistry { users: StringHashMap::new() }
    }

    /// Registers a new user under `id`, refusing an id that is already taken.
    pub fn register(&mut self, id: String) -> (r: Result<(), JobError>)
        requires
            old(self).wf(),
        ensures
            final(self).wf(),
            old(self)@.contains_key(id@) ==> r == Err::<(), JobError>(JobError::UserAlreadyExists)
                && final(self)@ == old(self)@,
            !old(self)@.contains_key(id@) ==> r == Ok::<(), JobError>(()) && final(self)@
                == old(self)@.insert(id@, fresh_user(id)),
    {
        if self.users.contains_key(id.as_str()) {
            Err(JobError::UserAlreadyExists)
        } else {
            let key = id.clone();
            self.users.insert(key, User::new(id));
            Ok(())
        }
    }

    /// The user registered under `id`, if any.
    pub fn get(&self, id: &str) -> (r: Option<User>)
        ensures
            r == (if self@.contains_key(id@) {
                Some(self@[id@])
            } else {
                None
            }),
    {
        match self.users.get(id) {
            Some(u) => Some(u.duplicate()),
            None => None,
        }
    }

    /// Stores `u` in place of the user with the same id.
    fn put(&mut self, u: User)
        requires
            old(self).wf(),
            old(self)@.contains_key(u.id@),
        ensures
            final(self).wf(),
            final(self)@ == old(self)@.insert(u.id@, u),
    {
        let key = u.id.clone();
        self.users.insert(key, u);
    }

    /// Adds `delta` to the reputation of `id`; does nothing if `id` is unknown.
    pub fn adjust_reputation(&mut self, id: &str, delta: i64)
        requires
            old(self).wf(),
        ensures
            final(self).wf(),
            final(self)@ == users_with_reputation_delta(old(self)@, id@, delta as int),
    {
        if let Some(mut u) = self.get(id) {
            u.reputation = saturating_shift(u.reputation, delta);
            self.put(u);
        }
    }

    /// Counts one more assigned job for `id`; does nothing if `id` is unknown.
    pub fn increment_assigned(&mut self, id: &str)
        requires
            old(self).wf(),
        ensures
            final(self).wf(),
            final(self)@ == users_with_assigned_bumped(old(self)@, id@),
    {
        if let Some(mut u) = self.get(id) {
            if u.assigned_jobs < u32::MAX {
                u.assigned_jobs = u.assigned_jobs + 1;
            }
            self.put(u);
        }
    }

    /// Counts one more completed job for `id`; does nothing if `id` is unknown.
    pub fn increment_completed(&mut self, id: &str)
        requires
            old(self).wf(),
        ensures
            final(self).wf(),
            final(self)@ == users_with_completed_bumped(old(self)@, id@),
    {
        if let Some(mut u) = self.get(id) {
            if u.completed_jobs < u32::MAX {
                u.completed_jobs = u.completed_jobs + 1;
            }
            self.put(u);
        }
    }
}

} // verus!
