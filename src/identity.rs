use vstd::prelude::*;

use crate::error::ForumError;

verus! {

/// A 256-bit account identity, held as its high and low 128-bit halves.
#[derive(Clone, Copy, Debug, PartialEq, Eq, Structural, Hash)]
pub struct ActorId {
    pub high: u128,
    pub low: u128,
}

impl ActorId {
    pub fn new(high: u128, low: u128) -> (r: ActorId)
        ensures
            r.high == high,
            r.low == low,
    {
        ActorId { high, low }
    }
}

/// The kinds of action that a delegated session may be allowed to perform.
#[derive(Clone, Copy, Debug, PartialEq, Eq, Structural)]
pub enum ActionsForSession {
    CreatePost,
    ToggleUpvote,
    CreateComment,
    ToggleCommentUpvote,
    UpdateProfile,
}

/// A delegated session: `key` may act for the owning account until `expires`,
/// and only for the listed kinds of action.
#[derive(Debug)]
pub struct SessionData {
    pub key: ActorId,
    pub expires: u64,
    pub allowed_actions: Vec<ActionsForSession>,
}

/// The read-only session lookup: owning account to session.
/// A later entry for an account shadows an earlier one.
pub struct SessionTable {
    entries: Vec<(ActorId, SessionData)>,
}

/// The session that `entries` holds for `account`: the last entry for it.
pub open spec fn session_in(entries: Seq<(ActorId, SessionData)>, account: ActorId) -> Option<
    SessionData,
>
    decreases entries.len(),
{
    if entries.len() == 0 {
        None
    } else if entries.last().0 == account {
        Some(entries.last().1)
    } else {
        session_in(entries.drop_last(), account)
    }
}

impl SessionTable {
    pub closed spec fn entries(&self) -> Seq<(ActorId, SessionData)> {
        self.entries@
    }

    /// The session registered for `account`, if any.
    pub open spec fn session_of(&self, account: ActorId) -> Option<SessionData> {
        session_in(self.entries(), account)
    }

    pub fn new() -> (r: SessionTable)
        ensures
            forall|a: ActorId| r.session_of(a) == None::<SessionData>,
    {
        SessionTable { entries: Vec::new() }
    }

    /// Registers `session` for `account`, replacing any earlier one.
    pub fn insert(&mut self, account: ActorId, session: SessionData)
        ensures
            final(self).session_of(account) == Some(session),
            forall|a: ActorId|
                a != account ==> final(self).session_of(a) == old(self).session_of(a),
    {
        self.entries.push((account, session));
        assert(self.entries@.drop_last() =~= old(self).entries@);
    }

    /// Looks up the session registered for `account`.
    pub fn lookup(&self, account: ActorId) -> (r: Option<&SessionData>)
        ensures
            match r {
                Some(s) => self.session_of(account) == Some(*s),
                None => self.session_of(account) == None::<SessionData>,
            },
    {
        let mut i: usize = self.entries.len();
        assert(self.entries@.take(i as int) =~= self.entries@);
        while i > 0
            invariant
                i <= self.entries@.len(),
                session_in(self.entries@, account) == session_in(self.entries@.take(i as int), account),
            decreases i,
        {
            assert(self.entries@.take(i as int).drop_last() =~= self.entries@.take(i - 1));
            if self.entries[i - 1].0 == account {
                return Some(&self.entries[i - 1].1);
            }
            i = i - 1;
        }
        None
    }
}

/// Whether `action` is among `actions`.
pub fn action_allowed(actions: &Vec<ActionsForSession>, action: ActionsForSession) -> (r: bool)
    ensures
        r == actions@.contains(action),
{
    let mut i: usize = 0;
    while i < actions.len()
        invariant
            i <= actions@.len(),
            forall|j: int| 0 <= j < i ==> actions@[j] != action,
        decreases actions@.len() - i,
    {
        if actions[i] == action {
            return true;
        }
        i = i + 1;
    }
    false
}

/// The acting identity of an action of kind `action` made by `caller` at
/// time `now`, optionally on behalf of `claimed` through its session.
pub open spec fn resolve_actor(
    sessions: SessionTable,
    caller: ActorId,
    claimed: Option<ActorId>,
    action: ActionsForSession,
    now: u64,
) -> Result<ActorId, ForumError> {
    match claimed {
        None => Ok(caller),
        Some(account) => match sessions.session_of(account) {
            None => Err(ForumError::NoSession),
            Some(s) => if s.expires <= now {
                Err(ForumError::SessionExpired)
            } else if !s.allowed_actions@.contains(action) {
                Err(ForumError::ActionNotPermitted)
            } else if s.key != caller {
                Err(ForumError::KeyMismatch)
            } else {
                Ok(account)
            },
        },
    }
}

/// Resolves who is acting: the caller itself, or the account it claims to act
/// for, provided that account's session is live, permits `action` and names
/// the caller as its key.
pub fn get_actor(
    sessions: &SessionTable,
    msg_source: ActorId,
    session_for_account: Option<ActorId>,
    action: ActionsForSession,
    now: u64,
) -> (r: Result<ActorId, ForumError>)
    ensures
        r == resolve_actor(*sessions, msg_source, session_for_account, action, now),
{
    match session_for_account {
        None => Ok(msg_source),
        Some(account) => match sessions.lookup(account) {
            None => Err(ForumError::NoSession),
            Some(session) => {
                if session.expires <= now {
                    Err(ForumError::SessionExpired)
                } else if !action_allowed(&session.allowed_actions, action) {
                    Err(ForumError::ActionNotPermitted)
                } else if session.key != msg_source {
                    Err(ForumError::KeyMismatch)
                } else {
                    Ok(account)
                }
            },
        },
    }
}

/// An action made through a session that has expired is refused, whatever
/// else the session says.
pub proof fn lemma_expired_session_refused(
    sessions: SessionTable,
    caller: ActorId,
    account: ActorId,
    action: ActionsForSession,
    now: u64,
)
    requires
        sessions.session_of(account) is Some,
        sessions.session_of(account).unwrap().expires <= now,
    ensures
        resolve_actor(sessions, caller, Some(account), action, now) == Err::<ActorId, ForumError>(
            ForumError::SessionExpired,
        ),
{
}

/// An action made through a live session that permits it, by the session's
/// key, is attributed to the delegating account and not to the key.
pub proof fn lemma_live_session_acts_for_account(
    sessions: SessionTable,
    caller: ActorId,
    account: ActorId,
    action: ActionsForSession,
    now: u64,
)
    requires
        sessions.session_of(account) is Some,
        now < sessions.session_of(account).unwrap().expires,
        sessions.session_of(account).unwrap().allowed_actions@.contains(action),
        sessions.session_of(account).unwrap().key == caller,
    ensures
        resolve_actor(sessions, caller, Some(account), action, now) == Ok::<ActorId, ForumError>(
            account,
        ),
{
}

} // verus!
