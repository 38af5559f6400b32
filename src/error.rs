use vstd::prelude::*;

verus! {

/// Every way in which a forum action can be refused.
#[derive(Clone, Copy, Debug, PartialEq, Eq, Structural)]
pub enum ForumError {
    /// The trimmed text is empty and no image was given.
    EmptyContent,
    /// The trimmed text is longer than the configured maximum (in bytes).
    ContentTooLong,
    /// The post or comment acted on does not exist.
    NotFound,
    /// The parent comment named by a reply does not exist.
    ParentNotFound,
    /// A delegated account was claimed, but it has no session.
    NoSession,
    /// The delegated account's session has expired.
    SessionExpired,
    /// The delegated account's session does not permit this kind of action.
    ActionNotPermitted,
    /// The caller is not the key that the delegated account's session names.
    KeyMismatch,
}

} // verus!
