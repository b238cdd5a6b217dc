//! Loading the persisted documents: what a document that is missing or
//! malformed means for the model and for the role state.

use vstd::prelude::*;
use crate::error::{ErrorKind, SyncError};
use crate::schema::TeamConfig;
use crate::state::LocalState;

verus! {

/// What reading and parsing a persisted document gave.
#[derive(Debug)]
pub enum Document<T> {
    /// There is no such document.
    Missing,
    /// The document cannot be parsed; the text says why.
    Malformed(String),
    /// The document, parsed.
    Parsed(T),
}

/// Loads the model.
pub struct ConfigLoader;

impl ConfigLoader {
    /// The model that `document` holds.
    ///
    /// Fails with `NotInitialized` where there is no model and with
    /// `ParseFailure`, giving the reason, where it is malformed.
    pub fn load(document: Document<TeamConfig>) -> (loaded: Result<TeamConfig, SyncError>)
        ensures
            match document {
                Document::Missing => loaded matches Err(e) && e.kind == ErrorKind::NotInitialized
                    && e.context@ == "no model has been persisted"@,
                Document::Malformed(reason) => loaded matches Err(e) && e.kind
                    == ErrorKind::ParseFailure && e.context@ == reason@,
                Document::Parsed(config) => loaded == Ok::<TeamConfig, SyncError>(config),
            },
    {
        match document {
            Document::Missing => Err(
                SyncError::new(ErrorKind::NotInitialized, "no model has been persisted"),
            ),
            Document::Malformed(reason) => Err(
                SyncError::new(ErrorKind::ParseFailure, reason.as_str()),
            ),
            Document::Parsed(config) => Ok(config),
        }
    }
}

impl LocalState {
    /// The role state that `document` holds. A machine without a persisted
    /// state holds no role.
    ///
    /// Fails with `ParseFailure`, giving the reason, where the document is
    /// malformed.
    pub fn load(document: Document<LocalState>) -> (loaded: Result<LocalState, SyncError>)
        ensures
            match document {
                Document::Missing => loaded matches Ok(state) && state@ == Seq::<
                    Seq<char>,
                >::empty(),
                Document::Malformed(reason) => loaded matches Err(e) && e.kind
                    == ErrorKind::ParseFailure && e.context@ == reason@,
                Document::Parsed(state) => loaded == Ok::<LocalState, SyncError>(state),
            },
    {
        match document {
            Document::Missing => Ok(LocalState::default()),
            Document::Malformed(reason) => Err(
                SyncError::new(ErrorKind::ParseFailure, reason.as_str()),
            ),
            Document::Parsed(state) => Ok(state),
        }
    }
}

} // verus!
