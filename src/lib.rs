//! State core of a freelance-job marketplace: a user registry, a job registry
//! and the service that coordinates them, with job lifecycle and reputation.
pub mod decimal;
pub mod error;
pub mod user_registry;
pub mod job_registry;
pub mod marketplace;
pub mod laws;

pub use error::JobError;
pub use job_registry::{Job, JobRegistry, JobStatus};
pub use marketplace::Marketplace;
pub use user_registry::{User, UserRegistry};
