//! Laws of the marketplace that relate several operations.
use vstd::prelude::*;
use vstd::seq_lib::group_filter_ensures;
use crate::decimal::decimal_digits;
use crate::error::JobError;
use crate::job_registry::{has_status, Job, JobStatus};
use crate::marketplace::{
    after_completion,
    after_dispute,
    after_post,
    after_register,
    completion_percent,
    percent_text,
    register_result,
    MarketState,
    COMPLETION_REWARD,
};

verus! {

/// Registering an id that is not registered succeeds, and registering the
/// same id once more is refused as already existing.
pub proof fn law_register_twice(m: MarketState, id: String)
    requires
        !m.users.contains_key(id@),
    ensures
        register_result(m, id@) == Ok::<(), JobError>(()),
        register_result(after_register(m, id), id@) == Err::<(), JobError>(
            JobError::UserAlreadyExists,
        ),
{
}

/// Posting a job for a registered client and then completing it raises the
/// client's reputation by exactly the completion reward; for a client with
/// no jobs before, the completion percentage then reads `100%`.
pub proof fn law_post_then_complete(m: MarketState, job: Job, stamp: u64)
    requires
        m.users.contains_key(job.client@),
        m.users[job.client@].reputation + COMPLETION_REWARD <= i64::MAX,
    ensures
        ({
            let done = after_completion(after_post(m, job, stamp), job.id@);
            let before = m.users[job.client@];
            let after = done.users[job.client@];
            &&& done.users.contains_key(job.client@)
            &&& after.reputation == before.reputation + COMPLETION_REWARD
            &&& before.assigned_jobs == 0 && before.completed_jobs == 0 ==> completion_percent(
                after,
            ) == 100 && percent_text(after) == "100%"@
        }),
{
    reveal_strlit("100%");
    reveal_strlit("%");
    let after = after_completion(after_post(m, job, stamp), job.id@).users[job.client@];
    if m.users[job.client@].assigned_jobs == 0 && m.users[job.client@].completed_jobs == 0 {
        assert(completion_percent(after) == 100);
        assert(decimal_digits(1) == seq!['1']);
        assert(decimal_digits(10) == seq!['1', '0']);
        assert(decimal_digits(100) =~= seq!['1', '0', '0']);
        assert("100%"@ =~= seq!['1', '0', '0', '%']);
        assert(percent_text(after) =~= "100%"@);
    }
}

/// Completing the same job twice counts twice: the client's reputation
/// rises by twice the completion reward and its completed jobs by two.
pub proof fn law_complete_twice(m: MarketState, id: Seq<char>)
    requires
        m.jobs.contains_key(id),
        m.users.contains_key(m.jobs[id].client@),
        m.users[m.jobs[id].client@].reputation + 2 * COMPLETION_REWARD <= i64::MAX,
        m.users[m.jobs[id].client@].completed_jobs + 2 <= u32::MAX,
    ensures
        ({
            let c = m.jobs[id].client@;
            let twice = after_completion(after_completion(m, id), id);
            &&& twice.users[c].reputation == m.users[c].reputation + 2 * COMPLETION_REWARD
            &&& twice.users[c].completed_jobs == m.users[c].completed_jobs + 2
            &&& twice.jobs[id].status == JobStatus::Completed
        }),
{
}

/// Completing a job whose client is not registered completes the job and
/// leaves every user as it was.
pub proof fn law_complete_unknown_client(m: MarketState, id: Seq<char>)
    requires
        m.jobs.contains_key(id),
        !m.users.contains_key(m.jobs[id].client@),
    ensures
        after_completion(m, id).users == m.users,
        after_completion(m, id).jobs[id].status == JobStatus::Completed,
{
}

/// A dispute that names an unregistered user changes nothing.
pub proof fn law_dispute_unknown_user(m: MarketState, user: Seq<char>, outcome: bool)
    requires
        !m.users.contains_key(user),
    ensures
        after_dispute(m, user, outcome) == m,
{
}

/// The open jobs are exactly the jobs of the full listing whose status is
/// `Open`.
pub proof fn law_open_jobs_of_listing(listing: Seq<Job>)
    ensures
        forall|j: Job|
            #[trigger] listing.filter(has_status(JobStatus::Open)).contains(j) <==> listing.contains(j)
                && j.status == JobStatus::Open,
{
    broadcast use group_filter_ensures;

    let open = listing.filter(has_status(JobStatus::Open));
    assert forall|j: Job| #[trigger] open.contains(j) <==> listing.contains(j) && j.status
        == JobStatus::Open by {
        if open.contains(j) {
            listing.lemma_filter_contains_rev(has_status(JobStatus::Open), j);
            let i = choose|i: int| 0 <= i < open.len() && open[i] == j;
            listing.lemma_filter_pred(has_status(JobStatus::Open), i);
        }
        if listing.contains(j) && j.status == JobStatus::Open {
            let i = choose|i: int| 0 <= i < listing.len() && listing[i] == j;
            listing.lemma_filter_contains(has_status(JobStatus::Open), i);
        }
    }
}

} // verus!
