//! The registry of jobs, keyed by job id and listed in posting order.
use vstd::prelude::*;
use vstd::hash_map::StringHashMap;
use crate::error::JobError;

verus! {

/// Where a job stands in its lifecycle.
#[derive(Debug, Clone, Copy, PartialEq, Eq, Structural)]
pub enum JobStatus {
    Open,
    Assigned,
    Completed,
    Disputed,
}

/// A posted job.
#[derive(Debug, Clone, PartialEq, Eq)]
pub struct Job {
    pub id: String,
    pub title: String,
    pub description: String,
    pub budget: u32,
    /// Id of the posting user; it need not be registered.
    pub client: String,
    /// Id of the assigned worker, once there is one.
    pub freelancer: Option<String>,
    pub status: JobStatus,
}

/// `j` with its status replaced by `status`.
pub open spec fn with_status(j: Job, status: JobStatus) -> Job {
    Job {
        id: j.id,
        title: j.title,
        description: j.description,
        budget: j.budget,
        client: j.client,
        freelancer: j.freelancer,
        status: status,
    }
}

/// Whether a job is in the given status.
pub open spec fn has_status(status: JobStatus) -> spec_fn(Job) -> bool {
    |j: Job| j.status == status
}

/// A listing after the job with id `id` is moved to `status`.
pub open spec fn listing_with_status(s: Seq<Job>, id: Seq<char>, status: JobStatus) -> Seq<Job> {
    s.map_values(|j: Job| if j.id@ == id { with_status(j, status) } else { j })
}

impl Job {
    /// A field-by-field copy.
    pub fn duplicate(&self) -> (r: Job)
        ensures
            r == *self,
    {
        let freelancer = match &self.freelancer {
            Some(f) => Some(f.clone()),
            None => None,
        };
        Job {
            id: self.id.clone(),
            title: self.title.clone(),
            description: self.description.clone(),
            budget: self.budget,
            client: self.client.clone(),
            freelancer,
            status: self.status,
        }
    }
}

/// The jobs known to the marketplace.
pub struct JobRegistry {
    jobs: StringHashMap<Job>,
    order: Vec<String>,
}

impl View for JobRegistry {
    type V = Map<Seq<char>, Job>;

    closed spec fn view(&self) -> Map<Seq<char>, Job> {
        self.jobs@
    }
}

impl JobRegistry {
    /// Each job is stored under its own id, and the posting order lists each stored id once.
    pub closed spec fn wf(&self) -> bool {
        &&& forall|k: Seq<char>| #[trigger]
            self.jobs@.contains_key(k) ==> self.jobs@[k].id@ == k
        &&& forall|i: int|
            0 <= i < self.order@.len() ==> self.jobs@.contains_key(#[trigger] self.order@[i]@)
        &&& forall|i: int, j: int|
            0 <= i < j < self.order@.len() ==> #[trigger] self.order@[i]@ != #[trigger] self.order@[j]@
        &&& forall|k: Seq<char>| #[trigger]
            self.jobs@.contains_key(k) ==> exists|i: int|
                0 <= i < self.order@.len() && #[trigger] self.order@[i]@ == k
    }

    /// All jobs, in the order in which they were posted.
    pub closed spec fn listing(&self) -> Seq<Job> {
        self.order@.map_values(|k: String| self.jobs@[k@])
    }

    /// An empty registry.
    pub fn new() -> (r: JobRegistry)
        ensures
            r.wf(),
            r@ == Map::<Seq<char>, Job>::empty(),
            r.listing() == Seq::<Job>::empty(),
    {
        let r = JobRegistry { jobs: StringHashMap::new(), order: Vec::new() };
        assert(r.listing() =~= Seq::<Job>::empty());
        r
    }

    /// Adds a job whose id is not yet taken.
    pub fn insert(&mut self, job: Job)
        requires
            old(self).wf(),
            !old(self)@.contains_key(job.id@),
        ensures
            final(self).wf(),
            final(self)@ == old(self)@.insert(job.id@, job),
            final(self).listing() == old(self).listing().push(job),
    {
        let ghost old_order = self.order@;
        let key = job.id.clone();
        let k2 = job.id.clone();
        self.jobs.insert(key, job);
        self.order.push(k2);
        assert forall|k: Seq<char>| #[trigger] self.jobs@.contains_key(k) implies exists|i: int|
            0 <= i < self.order@.len() && #[trigger] self.order@[i]@ == k by {
            if k == job.id@ {
                assert(self.order@[old_order.len() as int]@ == k);
            } else {
                let i = choose|i: int| 0 <= i < old_order.len() && #[trigger] old_order[i]@ == k;
                assert(self.order@[i]@ == k);
            }
        }
        assert(self.listing() =~= old(self).listing().push(job));
    }

    /// The job stored under `id`, if any.
    pub fn get(&self, id: &str) -> (r: Option<Job>)
        ensures
            r == (if self@.contains_key(id@) {
                Some(self@[id@])
            } else {
                None
            }),
    {
        match self.jobs.get(id) {
            Some(j) => Some(j.duplicate()),
            None => None,
        }
    }

    /// All jobs, in the order in which they were posted.
    pub fn list_all(&self) -> (r: Vec<Job>)
        requires
            self.wf(),
        ensures
            r@ == self.listing(),
    {
        let mut r: Vec<Job> = Vec::new();
        let mut i: usize = 0;
        while i < self.order.len()
            invariant
                self.wf(),
                0 <= i <= self.order@.len(),
                r@ == self.listing().take(i as int),
            decreases self.order@.len() - i,
        {
            let key = &self.order[i];
            match self.jobs.get(key.as_str()) {
                Some(j) => r.push(j.duplicate()),
                None => {},
            }
            assert(self.listing().take(i + 1) =~= self.listing().take(i as int).push(
                self.listing()[i as int],
            ));
            i = i + 1;
        }
        assert(self.listing().take(i as int) =~= self.listing());
        r
    }

    /// The jobs in status `status`, in the order in which they were posted.
    pub fn list_by_status(&self, status: JobStatus) -> (r: Vec<Job>)
        requires
            self.wf(),
        ensures
            r@ == self.listing().filter(has_status(status)),
    {
        let mut r: Vec<Job> = Vec::new();
        let mut i: usize = 0;
        while i < self.order.len()
            invariant
                self.wf(),
                0 <= i <= self.order@.len(),
                r@ == self.listing().take(i as int).filter(has_status(status)),
            decreases self.order@.len() - i,
        {
            let key = &self.order[i];
            proof {
                let s = self.listing().take(i + 1);
                assert(s.drop_last() =~= self.listing().take(i as int));
                reveal(Seq::filter);
            }
            match self.jobs.get(key.as_str()) {
                Some(j) => {
                    if j.status == status {
                        r.push(j.duplicate());
                    }
                },
                None => {},
            }
            i = i + 1;
        }
        assert(self.listing().take(i as int) =~= self.listing());
        r
    }

    /// Overwrites the status of job `id`, whatever it was; refuses an unknown id.
    pub fn set_status(&mut self, id: &str, status: JobStatus) -> (r: Result<(), JobError>)
        requires
            old(self).wf(),
        ensures
            final(self).wf(),
            old(self)@.contains_key(id@) ==> r == Ok::<(), JobError>(()) && final(self)@
                == old(self)@.insert(id@, with_status(old(self)@[id@], status))
                && final(self).listing() == listing_with_status(old(self).listing(), id@, status),
            !old(self)@.contains_key(id@) ==> r == Err::<(), JobError>(JobError::JobNotFound)
                && final(self)@ == old(self)@ && final(self).listing() == old(self).listing(),
    {
        match self.get(id) {
            Some(mut j) => {
                j.status = status;
                let key = j.id.clone();
                self.jobs.insert(key, j);
                assert(self.listing() =~= listing_with_status(old(self).listing(), id@, status));
                Ok(())
            },
            None => Err(JobError::JobNotFound),
        }
    }
}

} // verus!
