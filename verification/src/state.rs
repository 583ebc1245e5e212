//! The active-environment state store, read side. Per integration the
//! persistent store holds at most one currently selected environment
//! name. The caller reads the persisted location and hands the outcome
//! in as a plain [`StateRead`]; this module turns it into the query
//! result. The store is deliberately independent of configuration
//! validity: querying what is active never requires a loadable
//! configuration.

use vstd::prelude::*;
use crate::errors::ShowError;

verus! {

/// What reading the persisted state location for one integration
/// produced: no record was ever written, a record naming the active
/// environment, or a location that exists but cannot be read or parsed
/// (with the cause).
#[derive(Debug, PartialEq, Eq, Clone)]
pub enum StateRead {
    NoRecord,
    Active(String),
    Unreadable(String),
}

/// The query result for one read outcome: absent for a missing record,
/// the recorded name for a record, and a `StateReadError` carrying the
/// integration name and the cause for an unreadable location.
pub open spec fn active_of(integration: String, read: StateRead) -> Result<
    Option<String>,
    ShowError,
> {
    match read {
        StateRead::NoRecord => Ok(None),
        StateRead::Active(environment) => Ok(Some(environment)),
        StateRead::Unreadable(cause) => Err(ShowError::StateReadError { integration, cause }),
    }
}

/// An integration that was never activated has no record, and its
/// query yields absent — a successful empty result, not an error.
pub proof fn lemma_never_activated_is_absent(integration: String)
    ensures
        active_of(integration, StateRead::NoRecord) == Ok::<Option<String>, ShowError>(None),
{
}

/// The per-integration view of the active-environment store: the
/// integration name together with what its persisted state location
/// held at the moment it was read.
pub struct EnvsDir {
    pub integration: String,
    pub read: StateRead,
}

impl EnvsDir {
    /// The store view for `integration`, whose persisted location read
    /// as `read`.
    pub fn new(integration: &String, read: StateRead) -> (r: EnvsDir)
        ensures
            r.integration == integration,
            r.read == read,
    {
        EnvsDir { integration: integration.clone(), read }
    }

    /// Which environment is active for this integration: absent when no
    /// activation was ever recorded, the recorded name otherwise, and an
    /// error only when the persisted state exists but cannot be read.
    pub fn active(&self) -> (r: Result<Option<String>, ShowError>)
        ensures
            r == active_of(self.integration, self.read),
    {
        match &self.read {
            StateRead::NoRecord => Ok(None),
            StateRead::Active(environment) => Ok(Some(environment.clone())),
            StateRead::Unreadable(cause) => Err(
                ShowError::StateReadError {
                    integration: self.integration.clone(),
                    cause: cause.clone(),
                },
            ),
        }
    }
}

} // verus!
