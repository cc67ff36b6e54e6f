use vstd::prelude::*;

verus! {

/// A reading of the monotonic clock, carried opaquely.
#[verifier::external_type_specification]
#[verifier::external_body]
pub struct ExInstant(std::time::Instant);

/// Relies on `Instant::now`: reads the monotonic clock. Nothing is promised
/// of the value, which depends on when the call is made.
pub assume_specification[ std::time::Instant::now ]() -> std::time::Instant;

/// A unit of work: a caller-chosen identifier and the moment it was made.
#[derive(Clone, Copy)]
pub struct Job {
    pub id: u64,
    pub created_at: std::time::Instant,
}

impl Job {
    /// A job with the given identifier, stamped with the current time.
    pub fn new(id: u64) -> (r: Job)
        ensures
            r.id == id,
    {
        Job { id, created_at: std::time::Instant::now() }
    }
}

} // verus!
