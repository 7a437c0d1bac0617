use vstd::prelude::*;

verus! {

/// The reason why an operation on the game could not be carried out.
#[derive(Debug, Clone)]
pub struct SlayError {
    pub reason: String,
}

impl SlayError {
    pub fn new(reason: &str) -> (e: Self)
        ensures
            e.reason@ == reason@,
    {
        SlayError { reason: reason.to_string() }
    }
}

pub type SlayResult<T> = Result<T, SlayError>;

} // verus!
