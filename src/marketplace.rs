//! The marketplace service: it coordinates the user and job registries and
//! owns the rules that span both (job posting, completion, disputes).
use vstd::prelude::*;
use vstd::string::*;
use crate::decimal::{decimal_digits, decimal_string, lemma_decimal_injective, push_decimal};
use crate::error::JobError;
use crate::job_registry::{
    has_status,
    listing_with_status,
    with_status,
    Job,
    JobRegistry,
    JobStatus,
};
use crate::user_registry::{
    fresh_user,
    users_with_assigned_bumped,
    users_with_completed_bumped,
    users_with_reputation_delta,
    User,
    UserRegistry,
};

verus! {

/// Reputation a client gains when one of its jobs is completed.
pub const COMPLETION_REWARD: i64 = 10;

/// Reputation a user gains by winning a dispute, or loses by losing one.
pub const DISPUTE_STEP: i64 = 5;

/// What the marketplace holds, as mathematical values.
pub struct MarketState {
    /// Registered users by id.
    pub users: Map<Seq<char>, User>,
    /// Posted jobs by id.
    pub jobs: Map<Seq<char>, Job>,
    /// Posted jobs in posting order.
    pub listing: Seq<Job>,
    /// The stamp of the last job id issued, if any was.
    pub last_stamp: Option<u64>,
}

/// The state after registering the new id `id`.
pub open spec fn after_register(m: MarketState, id: String) -> MarketState {
    MarketState {
        users: m.users.insert(id@, fresh_user(id)),
        jobs: m.jobs,
        listing: m.listing,
        last_stamp: m.last_stamp,
    }
}

/// What registering `id` returns: refused if the id is taken.
pub open spec fn register_result(m: MarketState, id: Seq<char>) -> Result<(), JobError> {
    if m.users.contains_key(id) {
        Err(JobError::UserAlreadyExists)
    } else {
        Ok(())
    }
}

/// The stamp of the next job id: the time itself if it moved past the last
/// stamp, else one past the last stamp; none once the stamps are used up.
pub open spec fn next_stamp(last: Option<u64>, now: u64) -> Option<u64> {
    match last {
        None => Some(now),
        Some(l) => if now > l {
            Some(now)
        } else if l < u64::MAX {
            Some((l + 1) as u64)
        } else {
            None
        },
    }
}

/// A job as it stands right after it is posted.
pub open spec fn new_job(
    id: String,
    client: String,
    title: String,
    description: String,
    budget: u32,
) -> Job {
    Job { id, title, description, budget, client, freelancer: None, status: JobStatus::Open }
}

/// The state after posting `job` under the stamp `stamp`.
pub open spec fn after_post(m: MarketState, job: Job, stamp: u64) -> MarketState {
    MarketState {
        users: users_with_assigned_bumped(m.users, job.client@),
        jobs: m.jobs.insert(job.id@, job),
        listing: m.listing.push(job),
        last_stamp: Some(stamp),
    }
}

/// The state after moving job `id` to `status`.
pub open spec fn after_status(m: MarketState, id: Seq<char>, status: JobStatus) -> MarketState {
    MarketState {
        users: m.users,
        jobs: m.jobs.insert(id, with_status(m.jobs[id], status)),
        listing: listing_with_status(m.listing, id, status),
        last_stamp: m.last_stamp,
    }
}

/// The users after crediting `client` for a completed job.
pub open spec fn users_after_completion(users: Map<Seq<char>, User>, client: Seq<char>) -> Map<
    Seq<char>,
    User,
> {
    users_with_completed_bumped(
        users_with_reputation_delta(users, client, COMPLETION_REWARD as int),
        client,
    )
}

/// The state after completing job `id`.
pub open spec fn after_completion(m: MarketState, id: Seq<char>) -> MarketState {
    let moved = after_status(m, id, JobStatus::Completed);
    MarketState {
        users: users_after_completion(m.users, m.jobs[id].client@),
        jobs: moved.jobs,
        listing: moved.listing,
        last_stamp: m.last_stamp,
    }
}

/// The reputation change of a dispute's named user.
pub open spec fn dispute_delta(outcome: bool) -> int {
    if outcome {
        DISPUTE_STEP as int
    } else {
        -(DISPUTE_STEP as int)
    }
}

/// The state after settling a dispute for `user` with `outcome`.
pub open spec fn after_dispute(m: MarketState, user: Seq<char>, outcome: bool) -> MarketState {
    MarketState {
        users: users_with_reputation_delta(m.users, user, dispute_delta(outcome)),
        jobs: m.jobs,
        listing: m.listing,
        last_stamp: m.last_stamp,
    }
}

/// Completed jobs per hundred assigned ones, truncated; zero with nothing assigned.
pub open spec fn completion_percent(u: User) -> nat {
    if u.assigned_jobs == 0 {
        0
    } else {
        (u.completed_jobs as int * 100 / u.assigned_jobs as int) as nat
    }
}

/// The completion percentage as text, such as `33%`.
pub open spec fn percent_text(u: User) -> Seq<char> {
    decimal_digits(completion_percent(u)) + "%"@
}

/// The users and jobs of the marketplace.
pub struct Marketplace {
    users: UserRegistry,
    jobs: JobRegistry,
    last_stamp: Option<u64>,
}

impl View for Marketplace {
    type V = MarketState;

    closed spec fn view(&self) -> MarketState {
        MarketState {
            users: self.users@,
            jobs: self.jobs@,
            listing: self.jobs.listing(),
            last_stamp: self.last_stamp,
        }
    }
}

impl Marketplace {
    /// Both registries are well formed, and every job id renders a stamp no
    /// later than the last one issued.
    pub closed spec fn wf(&self) -> bool {
        &&& self.users.wf()
        &&& self.jobs.wf()
        &&& forall|k: Seq<char>| #[trigger]
            self.jobs@.contains_key(k) ==> self.last_stamp is Some && exists|s: u64|
                s <= self.last_stamp->Some_0 && #[trigger] decimal_digits(s as nat) == k
    }

    /// A marketplace with no users and no jobs.
    pub fn new() -> (r: Marketplace)
        ensures
            r.wf(),
            r@.users == Map::<Seq<char>, User>::empty(),
            r@.jobs == Map::<Seq<char>, Job>::empty(),
            r@.listing == Seq::<Job>::empty(),
            r@.last_stamp is None,
    {
        Marketplace { users: UserRegistry::new(), jobs: JobRegistry::new(), last_stamp: None }
    }

    /// Registers a user under `id`, refusing an id that is already registered.
    pub fn register_user(&mut self, id: String) -> (r: Result<(), JobError>)
        requires
            old(self).wf(),
        ensures
            final(self).wf(),
            r == register_result(old(self)@, id@),
            old(self)@.users.contains_key(id@) ==> r == Err::<(), JobError>(
                JobError::UserAlreadyExists,
            ) && final(self)@ == old(self)@,
            !old(self)@.users.contains_key(id@) ==> r == Ok::<(), JobError>(()) && final(self)@
                == after_register(old(self)@, id),
    {
        self.users.register(id)
    }

    /// Posts an open job for `client` at time `now`, and counts it as assigned
    /// to the client if the client is registered. The job id is the decimal
    /// rendering of `now`, or of one past the last stamp when the time has not
    /// moved past it, so that no two jobs share an id.
    pub fn post_job(
        &mut self,
        client: String,
        title: String,
        description: String,
        budget: u32,
        now: u64,
    ) -> (r: Result<String, JobError>)
        requires
            old(self).wf(),
        ensures
            final(self).wf(),
            next_stamp(old(self)@.last_stamp, now) is None ==> r == Err::<String, JobError>(
                JobError::JobIdsExhausted,
            ) && final(self)@ == old(self)@,
            next_stamp(old(self)@.last_stamp, now) is Some ==> r is Ok,
            r is Ok ==> {
                let id = r->Ok_0;
                let s = next_stamp(old(self)@.last_stamp, now)->Some_0;
                &&& id@ == decimal_digits(s as nat)
                &&& !old(self)@.jobs.contains_key(id@)
                &&& final(self)@ == after_post(
                    old(self)@,
                    new_job(id, client, title, description, budget),
                    s,
                )
                &&& final(self)@.jobs[id@].status == JobStatus::Open
                &&& final(self)@.jobs[id@].freelancer is None
            },
    {
        let stamp: u64 = match self.last_stamp {
            None => now,
            Some(l) => {
                if now > l {
                    now
                } else if l < u64::MAX {
                    l + 1
                } else {
                    return Err(JobError::JobIdsExhausted);
                }
            },
        };
        let id = decimal_string(stamp);
        proof {
            if self.jobs@.contains_key(id@) {
                let s = choose|s: u64|
                    s <= self.last_stamp->Some_0 && #[trigger] decimal_digits(s as nat) == id@;
                lemma_decimal_injective(s as nat, stamp as nat);
            }
        }
        self.users.increment_assigned(client.as_str());
        let job = Job {
            id: id.clone(),
            title,
            description,
            budget,
            client,
            freelancer: None,
            status: JobStatus::Open,
        };
        let ghost old_jobs = self.jobs@;
        let ghost old_last = self.last_stamp;
        self.jobs.insert(job);
        self.last_stamp = Some(stamp);
        assert forall|k: Seq<char>| #[trigger] self.jobs@.contains_key(k) implies exists|s: u64|
            s <= stamp && #[trigger] decimal_digits(s as nat) == k by {
            if k == id@ {
                assert(decimal_digits(stamp as nat) == k);
            } else {
                assert(old_jobs.contains_key(k));
                let s = choose|s: u64|
                    s <= old_last->Some_0 && #[trigger] decimal_digits(s as nat) == k;
                assert(decimal_digits(s as nat) == k);
            }
        }
        Ok(id)
    }

    /// The job stored under `job_id`, if any.
    pub fn get_job(&self, job_id: String) -> (r: Option<Job>)
        ensures
            r == (if self@.jobs.contains_key(job_id@) {
                Some(self@.jobs[job_id@])
            } else {
                None
            }),
    {
        self.jobs.get(job_id.as_str())
    }

    /// The open jobs, in posting order.
    pub fn list_open_jobs(&self) -> (r: Vec<Job>)
        requires
            self.wf(),
        ensures
            r@ == self@.listing.filter(has_status(JobStatus::Open)),
    {
        self.jobs.list_by_status(JobStatus::Open)
    }

    /// All jobs, in posting order.
    pub fn get_all_jobs(&self) -> (r: Vec<Job>)
        requires
            self.wf(),
        ensures
            r@ == self@.listing,
    {
        self.jobs.list_all()
    }

    /// Moves job `job_id` to `new_status`, from whatever status it had;
    /// refuses an unknown job.
    pub fn update_job_status(&mut self, job_id: String, new_status: JobStatus) -> (r: Result<
        (),
        JobError,
    >)
        requires
            old(self).wf(),
        ensures
            final(self).wf(),
            old(self)@.jobs.contains_key(job_id@) ==> r == Ok::<(), JobError>(()) && final(self)@
                == after_status(old(self)@, job_id@, new_status),
            !old(self)@.jobs.contains_key(job_id@) ==> r == Err::<(), JobError>(
                JobError::JobNotFound,
            ) && final(self)@ == old(self)@,
    {
        let r = self.jobs.set_status(job_id.as_str(), new_status);
        assert forall|k: Seq<char>| #[trigger]
            self.jobs@.contains_key(k) implies old(self).jobs@.contains_key(k) by {}
        r
    }

    /// Completes job `job_id`, whatever its status: the job becomes
    /// `Completed`, and its client, if registered, gains the completion
    /// reward and one more completed job. Refuses an unknown job.
    pub fn complete_job(&mut self, job_id: String) -> (r: Result<(), JobError>)
        requires
            old(self).wf(),
        ensures
            final(self).wf(),
            old(self)@.jobs.contains_key(job_id@) ==> r == Ok::<(), JobError>(()) && final(self)@
                == after_completion(old(self)@, job_id@),
            !old(self)@.jobs.contains_key(job_id@) ==> r == Err::<(), JobError>(
                JobError::JobNotFound,
            ) && final(self)@ == old(self)@,
    {
        match self.jobs.get(job_id.as_str()) {
            Some(job) => {
                self.users.adjust_reputation(job.client.as_str(), COMPLETION_REWARD);
                self.users.increment_completed(job.client.as_str());
                let _ = self.jobs.set_status(job_id.as_str(), JobStatus::Completed);
                assert forall|k: Seq<char>| #[trigger]
                    self.jobs@.contains_key(k) implies old(self).jobs@.contains_key(k) by {}
                Ok(())
            },
            None => Err(JobError::JobNotFound),
        }
    }

    /// Settles a dispute on job `job_id`: `user_id`, if registered, gains the
    /// dispute step when `outcome` holds and loses it otherwise, whether or not
    /// it takes part in the job. The job is left as it is. Refuses an unknown job.
    pub fn resolve_dispute(&mut self, job_id: String, user_id: String, outcome: bool) -> (r:
        Result<(), JobError>)
        requires
            old(self).wf(),
        ensures
            final(self).wf(),
            old(self)@.jobs.contains_key(job_id@) ==> r == Ok::<(), JobError>(()) && final(self)@
                == after_dispute(old(self)@, user_id@, outcome),
            !old(self)@.jobs.contains_key(job_id@) ==> r == Err::<(), JobError>(
                JobError::JobNotFound,
            ) && final(self)@ == old(self)@,
    {
        if self.jobs.get(job_id.as_str()).is_some() {
            let delta: i64 = if outcome {
                DISPUTE_STEP
            } else {
                -DISPUTE_STEP
            };
            self.users.adjust_reputation(user_id.as_str(), delta);
            Ok(())
        } else {
            Err(JobError::JobNotFound)
        }
    }

    /// The stored reputation of `user_id`, if registered.
    pub fn get_user_reputation(&self, user_id: String) -> (r: Option<i64>)
        ensures
            r == (if self@.users.contains_key(user_id@) {
                Some(self@.users[user_id@].reputation)
            } else {
                None
            }),
    {
        match self.users.get(user_id.as_str()) {
            Some(u) => Some(u.reputation),
            None => None,
        }
    }

    /// The completion percentage of `user_id` as text, such as `33%`;
    /// refuses an unknown user.
    pub fn calculate_reputation(&self, user_id: String) -> (r: Result<String, JobError>)
        ensures
            self@.users.contains_key(user_id@) ==> r is Ok && r->Ok_0@ == percent_text(
                self@.users[user_id@],
            ),
            !self@.users.contains_key(user_id@) ==> r == Err::<String, JobError>(
                JobError::UserNotFound,
            ),
    {
        match self.users.get(user_id.as_str()) {
            Some(u) => {
                let percent: u64 = if u.assigned_jobs > 0 {
                    (u.completed_jobs as u64) * 100 / (u.assigned_jobs as u64)
                } else {
                    0
                };
                let mut text = String::new();
                push_decimal(&mut text, percent);
                text.append("%");
                Ok(text)
            },
            None => Err(JobError::UserNotFound),
        }
    }
}

} // verus!
