//! The error type shared by history and session operations.
use vstd::prelude::*;
use crate::history::HistoryError;
use crate::session_manager::SessionError;

verus! {

/// An error of a history or session operation, or an operation that does
/// not apply.
#[derive(Debug)]
pub enum NavigationError {
    History(HistoryError),
    Session(SessionError),
    InvalidOperation(String),
}

impl From<HistoryError> for NavigationError {
    fn from(e: HistoryError) -> (r: Self) {
        NavigationError::History(e)
    }
}

impl vstd::std_specs::convert::FromSpecImpl<HistoryError> for NavigationError {
    open spec fn obeys_from_spec() -> bool {
        true
    }

    open spec fn from_spec(e: HistoryError) -> Self {
        NavigationError::History(e)
    }
}

impl From<SessionError> for NavigationError {
    fn from(e: SessionError) -> (r: Self) {
        NavigationError::Session(e)
    }
}

impl vstd::std_specs::convert::FromSpecImpl<SessionError> for NavigationError {
    open spec fn obeys_from_spec() -> bool {
        true
    }

    open spec fn from_spec(e: SessionError) -> Self {
        NavigationError::Session(e)
    }
}

} // verus!
