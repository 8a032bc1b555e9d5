use freelance_market::decimal::decimal_string;
use freelance_market::user_registry::saturating_shift;
use freelance_market::{Job, JobError, JobRegistry, JobStatus, Marketplace, User, UserRegistry};

fn s(text: &str) -> String {
    text.to_string()
}

fn post(m: &mut Marketplace, client: &str, now: u64) -> String {
    m.post_job(s(client), s("title"), s("description"), 100, now).unwrap()
}

#[test]
fn register_twice_is_refused() {
    let mut m = Marketplace::new();
    assert_eq!(m.register_user(s("alice")), Ok(()));
    assert_eq!(m.register_user(s("alice")), Err(JobError::UserAlreadyExists));
    assert_eq!(m.register_user(s("")), Ok(()));
    assert_eq!(m.get_user_reputation(s("alice")), Some(0));
}

#[test]
fn posted_job_is_open_without_freelancer() {
    let mut m = Marketplace::new();
    for (budget, title) in [(0u32, ""), (u32::MAX, "Logo"), (17, "x y z")] {
        let id = m.post_job(s("bob"), s(title), s("anything"), budget, 5).unwrap();
        let job = m.get_job(id.clone()).unwrap();
        assert_eq!(job.status, JobStatus::Open);
        assert_eq!(job.freelancer, None);
        assert_eq!(job.budget, budget);
        assert_eq!(job.title, title);
        assert_eq!(job.client, "bob");
        assert_eq!(job.id, id);
    }
}

#[test]
fn post_then_complete_adds_ten_and_full_percent() {
    let mut m = Marketplace::new();
    m.register_user(s("carol")).unwrap();
    let before = m.get_user_reputation(s("carol")).unwrap();
    let id = post(&mut m, "carol", 1000);
    assert_eq!(m.complete_job(id.clone()), Ok(()));
    assert_eq!(m.get_user_reputation(s("carol")), Some(before + 10));
    assert_eq!(m.calculate_reputation(s("carol")), Ok(s("100%")));
    assert_eq!(m.get_job(id).unwrap().status, JobStatus::Completed);
}

#[test]
fn percent_truncates() {
    let mut m = Marketplace::new();
    m.register_user(s("dave")).unwrap();
    let first = post(&mut m, "dave", 1);
    post(&mut m, "dave", 2);
    post(&mut m, "dave", 3);
    m.complete_job(first).unwrap();
    assert_eq!(m.calculate_reputation(s("dave")), Ok(s("33%")));
}

#[test]
fn percent_is_zero_without_assigned_jobs() {
    let mut m = Marketplace::new();
    m.register_user(s("erin")).unwrap();
    assert_eq!(m.calculate_reputation(s("erin")), Ok(s("0%")));
}

#[test]
fn percent_exceeds_hundred_after_repeated_completion() {
    let mut m = Marketplace::new();
    m.register_user(s("finn")).unwrap();
    let id = post(&mut m, "finn", 9);
    m.complete_job(id.clone()).unwrap();
    m.complete_job(id.clone()).unwrap();
    m.complete_job(id).unwrap();
    assert_eq!(m.calculate_reputation(s("finn")), Ok(s("300%")));
}

#[test]
fn completing_twice_counts_twice() {
    let mut m = Marketplace::new();
    m.register_user(s("gina")).unwrap();
    let id = post(&mut m, "gina", 42);
    m.complete_job(id.clone()).unwrap();
    m.complete_job(id).unwrap();
    assert_eq!(m.get_user_reputation(s("gina")), Some(20));
    assert_eq!(m.calculate_reputation(s("gina")), Ok(s("200%")));
}

#[test]
fn unknown_client_completion_touches_no_user() {
    let mut m = Marketplace::new();
    m.register_user(s("hank")).unwrap();
    let id = post(&mut m, "ghost", 7);
    assert_eq!(m.complete_job(id.clone()), Ok(()));
    assert_eq!(m.get_job(id).unwrap().status, JobStatus::Completed);
    assert_eq!(m.get_user_reputation(s("hank")), Some(0));
    assert_eq!(m.get_user_reputation(s("ghost")), None);
}

#[test]
fn unknown_user_dispute_touches_no_user() {
    let mut m = Marketplace::new();
    m.register_user(s("ivy")).unwrap();
    let id = post(&mut m, "ivy", 7);
    assert_eq!(m.resolve_dispute(id.clone(), s("nobody"), true), Ok(()));
    assert_eq!(m.get_user_reputation(s("ivy")), Some(0));
    assert_eq!(m.get_user_reputation(s("nobody")), None);
    assert_eq!(m.get_job(id).unwrap().status, JobStatus::Open);
}

#[test]
fn dispute_moves_reputation_by_five_and_may_go_negative() {
    let mut m = Marketplace::new();
    m.register_user(s("jo")).unwrap();
    m.register_user(s("kim")).unwrap();
    let id = post(&mut m, "jo", 3);
    m.resolve_dispute(id.clone(), s("kim"), false).unwrap();
    assert_eq!(m.get_user_reputation(s("kim")), Some(-5));
    m.resolve_dispute(id.clone(), s("jo"), true).unwrap();
    assert_eq!(m.get_user_reputation(s("jo")), Some(5));
    m.update_job_status(id.clone(), JobStatus::Disputed).unwrap();
    m.resolve_dispute(id.clone(), s("jo"), true).unwrap();
    assert_eq!(m.get_job(id).unwrap().status, JobStatus::Disputed);
}

#[test]
fn open_listing_filters_all_jobs() {
    let mut m = Marketplace::new();
    let a = post(&mut m, "c", 10);
    let b = post(&mut m, "c", 20);
    let c = post(&mut m, "c", 30);
    let d = post(&mut m, "c", 40);
    m.update_job_status(b.clone(), JobStatus::Assigned).unwrap();
    m.complete_job(c.clone()).unwrap();
    m.update_job_status(d.clone(), JobStatus::Disputed).unwrap();
    m.update_job_status(d.clone(), JobStatus::Open).unwrap();
    let all: Vec<Job> = m.get_all_jobs();
    let ids: Vec<String> = all.iter().map(|j| j.id.clone()).collect();
    assert_eq!(ids, vec![a.clone(), b, c, d.clone()]);
    let open: Vec<Job> = m.list_open_jobs();
    let expected: Vec<Job> = all.into_iter().filter(|j| j.status == JobStatus::Open).collect();
    assert_eq!(open, expected);
    let open_ids: Vec<String> = open.iter().map(|j| j.id.clone()).collect();
    assert_eq!(open_ids, vec![a, d]);
}

#[test]
fn empty_marketplace_lists_nothing() {
    let m = Marketplace::new();
    assert!(m.get_all_jobs().is_empty());
    assert!(m.list_open_jobs().is_empty());
    assert_eq!(m.get_job(s("1")), None);
}

#[test]
fn unknown_ids_are_not_found() {
    let mut m = Marketplace::new();
    m.register_user(s("lee")).unwrap();
    let id = post(&mut m, "lee", 5);
    assert_eq!(
        m.update_job_status(s("missing"), JobStatus::Assigned),
        Err(JobError::JobNotFound)
    );
    assert_eq!(m.complete_job(s("missing")), Err(JobError::JobNotFound));
    assert_eq!(
        m.resolve_dispute(s("missing"), s("lee"), true),
        Err(JobError::JobNotFound)
    );
    assert_eq!(m.calculate_reputation(s("nobody")), Err(JobError::UserNotFound));
    assert_eq!(m.get_user_reputation(s("lee")), Some(0));
    assert_eq!(m.get_job(id).unwrap().status, JobStatus::Open);
}

#[test]
fn status_update_is_unguarded() {
    let mut m = Marketplace::new();
    let id = post(&mut m, "c", 8);
    m.complete_job(id.clone()).unwrap();
    assert_eq!(m.update_job_status(id.clone(), JobStatus::Open), Ok(()));
    assert_eq!(m.get_job(id.clone()).unwrap().status, JobStatus::Open);
    m.update_job_status(id.clone(), JobStatus::Assigned).unwrap();
    assert_eq!(m.get_job(id).unwrap().status, JobStatus::Assigned);
}

#[test]
fn job_ids_follow_time_and_never_repeat() {
    let mut m = Marketplace::new();
    assert_eq!(post(&mut m, "c", 1700000000000000000), "1700000000000000000");
    assert_eq!(post(&mut m, "c", 1700000000000000000), "1700000000000000001");
    assert_eq!(post(&mut m, "c", 5), "1700000000000000002");
    assert_eq!(post(&mut m, "c", 1800000000000000000), "1800000000000000000");
    assert_eq!(m.get_all_jobs().len(), 4);
}

#[test]
fn first_job_at_time_zero() {
    let mut m = Marketplace::new();
    assert_eq!(post(&mut m, "c", 0), "0");
    assert_eq!(post(&mut m, "c", 0), "1");
}

#[test]
fn job_ids_run_out_at_largest_stamp() {
    let mut m = Marketplace::new();
    m.register_user(s("max")).unwrap();
    assert_eq!(post(&mut m, "max", u64::MAX), "18446744073709551615");
    assert_eq!(
        m.post_job(s("max"), s("t"), s("d"), 1, 3),
        Err(JobError::JobIdsExhausted)
    );
    assert_eq!(m.get_all_jobs().len(), 1);
    assert_eq!(m.calculate_reputation(s("max")), Ok(s("0%")));
}

#[test]
fn posting_counts_assigned_jobs_of_registered_client() {
    let mut m = Marketplace::new();
    m.register_user(s("nia")).unwrap();
    post(&mut m, "nia", 1);
    post(&mut m, "nia", 2);
    let id = post(&mut m, "nia", 3);
    post(&mut m, "nia", 4);
    m.complete_job(id).unwrap();
    assert_eq!(m.calculate_reputation(s("nia")), Ok(s("25%")));
}

#[test]
fn decimal_rendering() {
    assert_eq!(decimal_string(0), "0");
    assert_eq!(decimal_string(7), "7");
    assert_eq!(decimal_string(10), "10");
    assert_eq!(decimal_string(1234567890), "1234567890");
    assert_eq!(decimal_string(u64::MAX), "18446744073709551615");
}

#[test]
fn reputation_saturates_at_bounds() {
    assert_eq!(saturating_shift(i64::MAX, 10), i64::MAX);
    assert_eq!(saturating_shift(i64::MIN, -5), i64::MIN);
    assert_eq!(saturating_shift(0, -5), -5);
    assert_eq!(saturating_shift(3, 10), 13);
}

#[test]
fn error_messages() {
    assert_eq!(JobError::UserAlreadyExists.message(), "User already exists");
    assert_eq!(JobError::JobNotFound.message(), "Job not found");
    assert_eq!(JobError::InvalidJobStatus.message(), "Invalid job status");
    assert_eq!(
        JobError::InsufficientJobs.message(),
        "Insufficient jobs for reputation calculation"
    );
    assert_eq!(JobError::DisputeResolutionFailed.message(), "Failed to resolve dispute");
    assert_eq!(JobError::UserNotFound.message(), "User not found");
    assert_eq!(JobError::JobIdsExhausted.message(), "No job id is left to issue");
    assert_eq!(JobError::Other(s("boom")).message(), "boom");
}

#[test]
fn user_registry_ignores_unknown_ids() {
    let mut r = UserRegistry::new();
    r.adjust_reputation("zed", 5);
    r.increment_assigned("zed");
    r.increment_completed("zed");
    assert_eq!(r.get("zed"), None);
    assert_eq!(r.register(s("zed")), Ok(()));
    r.adjust_reputation("zed", -7);
    r.increment_assigned("zed");
    r.increment_assigned("zed");
    r.increment_completed("zed");
    let u: User = r.get("zed").unwrap();
    assert_eq!(u.reputation, -7);
    assert_eq!(u.assigned_jobs, 2);
    assert_eq!(u.completed_jobs, 1);
    assert_eq!(u.id, "zed");
}

#[test]
fn job_registry_set_status_and_listing() {
    let mut r = JobRegistry::new();
    let job = Job {
        id: s("j1"),
        title: s("t"),
        description: s("d"),
        budget: 3,
        client: s("c"),
        freelancer: Some(s("f")),
        status: JobStatus::Open,
    };
    r.insert(job.duplicate());
    assert_eq!(r.set_status("j2", JobStatus::Completed), Err(JobError::JobNotFound));
    assert_eq!(r.set_status("j1", JobStatus::Assigned), Ok(()));
    assert_eq!(r.list_by_status(JobStatus::Open), Vec::<Job>::new());
    let assigned = r.list_by_status(JobStatus::Assigned);
    assert_eq!(assigned.len(), 1);
    assert_eq!(assigned[0].freelancer, Some(s("f")));
    assert_eq!(r.get("j1").unwrap().status, JobStatus::Assigned);
    assert_eq!(r.list_all().len(), 1);
}
