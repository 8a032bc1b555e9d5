//! Errors reported by the marketplace operations.
use vstd::prelude::*;
use vstd::string::*;

verus! {

/// Why a marketplace operation was refused.
#[derive(Debug, Clone, PartialEq, Eq)]
pub enum JobError {
    /// A user with this id is already registered.
    UserAlreadyExists,
    /// No job has this id.
    JobNotFound,
    /// The requested status is not acceptable.
    InvalidJobStatus,
    /// Too few jobs to compute a figure.
    InsufficientJobs,
    /// A dispute could not be settled.
    DisputeResolutionFailed,
    /// No user has this id.
    UserNotFound,
    /// Every job id that follows the last one issued is taken.
    JobIdsExhausted,
    /// Any other failure, with its message.
    Other(String),
}

/// The human-readable message of an error.
pub open spec fn error_text(e: JobError) -> Seq<char> {
    match e {
        JobError::UserAlreadyExists => "User already exists"@,
        JobError::JobNotFound => "Job not found"@,
        JobError::InvalidJobStatus => "Invalid job status"@,
        JobError::InsufficientJobs => "Insufficient jobs for reputation calculation"@,
        JobError::DisputeResolutionFailed => "Failed to resolve dispute"@,
        JobError::UserNotFound => "User not found"@,
        JobError::JobIdsExhausted => "No job id is left to issue"@,
        JobError::Other(msg) => msg@,
    }
}

impl JobError {
    /// The message that describes this error to a person.
    pub fn message(&self) -> (r: String)
        ensures
            r@ == error_text(*self),
    {
        match self {
            JobError::UserAlreadyExists => String::from_str("User already exists"),
            JobError::JobNotFound => String::from_str("Job not found"),
            JobError::InvalidJobStatus => String::from_str("Invalid job status"),
            JobError::InsufficientJobs => String::from_str(
                "Insufficient jobs for reputation calculation",
            ),
            JobError::DisputeResolutionFailed => String::from_str("Failed to resolve dispute"),
            JobError::UserNotFound => String::from_str("User not found"),
            JobError::JobIdsExhausted => String::from_str("No job id is left to issue"),
            JobError::Other(msg) => msg.clone(),
        }
    }
}

} // verus!
