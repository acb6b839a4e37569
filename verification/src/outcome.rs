//! The outcome of one archive lookup, as the background execution reports it.

use vstd::prelude::*;

verus! {

/// A terminal failure of one lookup: the archive could not be opened or
/// parsed. Carries a human-readable cause and no retry metadata.
pub struct ErrorInfo {
    pub message: String,
}

/// What the background execution of one query produced: the stored definition,
/// the key's absence, or a failure. Absence is a successful outcome, not an
/// error.
pub enum LookupOutcome {
    Found(String),
    NotFound,
    Failed(ErrorInfo),
}

/// The outcome that classifies a raw accessor result: a definition becomes
/// `Found`, a successful miss becomes `NotFound`, and an accessor error
/// becomes `Failed` with the same cause.
pub open spec fn outcome_of(lookup: Result<Option<String>, ErrorInfo>) -> LookupOutcome {
    match lookup {
        Ok(Some(definition)) => LookupOutcome::Found(definition),
        Ok(None) => LookupOutcome::NotFound,
        Err(cause) => LookupOutcome::Failed(cause),
    }
}

} // verus!
