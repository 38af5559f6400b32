use vstd::prelude::*;

use crate::error::ForumError;
use crate::identity::{resolve_actor, ActionsForSession, ActorId, SessionTable};
use crate::reward::vibes_reward;
use crate::service::{
    comment_created, create_comment_refusal, create_post_refusal, parent_exists, post_created,
    profile_updated, refusal, MiniRedditService,
};
use crate::state::{comment_vote_toggled, post_vote_toggled};

verus! {

/// An inbound forum action.
#[derive(Debug)]
pub enum Action {
    CreatePost { text: String, image_uri: Option<String> },
    ToggleUpvote { post_id: u64 },
    CreateComment { post_id: u64, parent_id: Option<u64>, text: String, image_uri: Option<String> },
    ToggleCommentUpvote { comment_id: u64 },
    UpdateProfile {
        username: Option<String>,
        social_handle: Option<String>,
        description: Option<String>,
        avatar_uri: Option<String>,
    },
}

/// The outbound answer to an action.
#[derive(Debug)]
pub enum Event {
    PostCreated { post_id: u64, vibes_earned: u64 },
    UpvoteToggled { post_id: u64, upvotes: u32, is_upvoted: bool },
    CommentCreated { comment_id: u64, post_id: u64, parent_id: Option<u64> },
    CommentUpvoteToggled { comment_id: u64, upvotes: u32, is_upvoted: bool },
    ProfileUpdated { wallet: ActorId },
    VibesEarned { wallet: ActorId, amount: u64 },
    Error { message: String },
}

/// The text that reports a refusal.
pub open spec fn error_text(e: ForumError) -> Seq<char> {
    match e {
        ForumError::EmptyContent => "Content must have text or image"@,
        ForumError::ContentTooLong => "Content too long"@,
        ForumError::NotFound => "Not found"@,
        ForumError::ParentNotFound => "Parent comment not found"@,
        ForumError::NoSession => "No valid session for this account"@,
        ForumError::SessionExpired => "Session expired"@,
        ForumError::ActionNotPermitted => "Action not allowed"@,
        ForumError::KeyMismatch => "Sender not authorized for session"@,
    }
}

/// The text that reports the refusal `e`.
pub fn error_message(e: ForumError) -> (r: String)
    ensures
        r@ == error_text(e),
{
    match e {
        ForumError::EmptyContent => "Content must have text or image".to_owned(),
        ForumError::ContentTooLong => "Content too long".to_owned(),
        ForumError::NotFound => "Not found".to_owned(),
        ForumError::ParentNotFound => "Parent comment not found".to_owned(),
        ForumError::NoSession => "No valid session for this account".to_owned(),
        ForumError::SessionExpired => "Session expired".to_owned(),
        ForumError::ActionNotPermitted => "Action not allowed".to_owned(),
        ForumError::KeyMismatch => "Sender not authorized for session".to_owned(),
    }
}

/// Whether `ev` reports the refusal `e`.
pub open spec fn reports(ev: Event, e: ForumError) -> bool {
    ev is Error && ev->Error_message@ == error_text(e)
}

impl MiniRedditService {
    /// Applies `action` on behalf of `msg_source` (or of the account it
    /// claims through a session) at time `now`, and answers with an event.
    pub fn handle(
        &mut self,
        action: Action,
        session_for_account: Option<ActorId>,
        sessions: &SessionTable,
        msg_source: ActorId,
        now: u64,
    ) -> (ev: Event)
        requires
            old(self).wf(),
            old(self).state().posts().len() < usize::MAX,
            old(self).state().comments().len() < usize::MAX,
        ensures
            final(self).wf(),
            match action {
                Action::CreatePost { text, image_uri } => {
                    let resolved = resolve_actor(
                        *sessions,
                        msg_source,
                        session_for_account,
                        ActionsForSession::CreatePost,
                        now,
                    );
                    match create_post_refusal(text@, image_uri is Some, resolved) {
                        Some(e) => reports(ev, e) && final(self).state() == old(self).state(),
                        None => ev == (Event::PostCreated {
                            post_id: old(self).state().next_post_id(),
                            vibes_earned: vibes_reward(now),
                        }) && post_created(
                            old(self).state(),
                            final(self).state(),
                            text@,
                            image_uri,
                            resolved->Ok_0,
                            now,
                        ),
                    }
                },
                Action::ToggleUpvote { post_id } => {
                    let resolved = resolve_actor(
                        *sessions,
                        msg_source,
                        session_for_account,
                        ActionsForSession::ToggleUpvote,
                        now,
                    );
                    match refusal(old(self).state().has_post(post_id), resolved) {
                        Some(e) => reports(ev, e) && final(self).state() == old(self).state(),
                        None => ev is UpvoteToggled && ev->UpvoteToggled_post_id == post_id
                            && post_vote_toggled(
                            old(self).state(),
                            final(self).state(),
                            post_id,
                            resolved->Ok_0,
                            (ev->UpvoteToggled_upvotes, ev->UpvoteToggled_is_upvoted),
                        ),
                    }
                },
                Action::CreateComment { post_id, parent_id, text, image_uri } => {
                    let resolved = resolve_actor(
                        *sessions,
                        msg_source,
                        session_for_account,
                        ActionsForSession::CreateComment,
                        now,
                    );
                    match create_comment_refusal(
                        text@,
                        image_uri is Some,
                        old(self).state().has_post(post_id),
                        parent_exists(old(self).state(), parent_id),
                        resolved,
                    ) {
                        Some(e) => reports(ev, e) && final(self).state() == old(self).state(),
                        None => ev == (Event::CommentCreated {
                            comment_id: old(self).state().next_comment_id(),
                            post_id,
                            parent_id,
                        }) && comment_created(
                            old(self).state(),
                            final(self).state(),
                            post_id,
                            parent_id,
                            text@,
                            image_uri,
                            resolved->Ok_0,
                            now,
                        ),
                    }
                },
                Action::ToggleCommentUpvote { comment_id } => {
                    let resolved = resolve_actor(
                        *sessions,
                        msg_source,
                        session_for_account,
                        ActionsForSession::ToggleCommentUpvote,
                        now,
                    );
                    match refusal(old(self).state().has_comment(comment_id), resolved) {
                        Some(e) => reports(ev, e) && final(self).state() == old(self).state(),
                        None => ev is CommentUpvoteToggled && ev->CommentUpvoteToggled_comment_id
                            == comment_id && comment_vote_toggled(
                            old(self).state(),
                            final(self).state(),
                            comment_id,
                            resolved->Ok_0,
                            (
                                ev->CommentUpvoteToggled_upvotes,
                                ev->CommentUpvoteToggled_is_upvoted,
                            ),
                        ),
                    }
                },
                Action::UpdateProfile { username, social_handle, description, avatar_uri } => {
                    match resolve_actor(
                        *sessions,
                        msg_source,
                        session_for_account,
                        ActionsForSession::UpdateProfile,
                        now,
                    ) {
                        Err(e) => reports(ev, e) && final(self).state() == old(self).state(),
                        Ok(actor) => ev == (Event::ProfileUpdated { wallet: actor })
                            && profile_updated(
                            old(self).state(),
                            final(self).state(),
                            actor,
                            username,
                            social_handle,
                            description,
                            avatar_uri,
                            now,
                        ),
                    }
                },
            },
    {
        match action {
            Action::CreatePost { text, image_uri } => {
                match self.create_post(
                    text,
                    image_uri,
                    session_for_account,
                    sessions,
                    msg_source,
                    now,
                ) {
                    Ok((post_id, vibes_earned)) => Event::PostCreated { post_id, vibes_earned },
                    Err(e) => Event::Error { message: error_message(e) },
                }
            },
            Action::ToggleUpvote { post_id } => {
                match self.toggle_upvote(post_id, session_for_account, sessions, msg_source, now) {
                    Ok((upvotes, is_upvoted)) => Event::UpvoteToggled {
                        post_id,
                        upvotes,
                        is_upvoted,
                    },
                    Err(e) => Event::Error { message: error_message(e) },
                }
            },
            Action::CreateComment { post_id, parent_id, text, image_uri } => {
                match self.create_comment(
                    post_id,
                    parent_id,
                    text,
                    image_uri,
                    session_for_account,
                    sessions,
                    msg_source,
                    now,
                ) {
                    Ok(comment_id) => Event::CommentCreated { comment_id, post_id, parent_id },
                    Err(e) => Event::Error { message: error_message(e) },
                }
            },
            Action::ToggleCommentUpvote { comment_id } => {
                match self.toggle_comment_upvote(
                    comment_id,
                    session_for_account,
                    sessions,
                    msg_source,
                    now,
                ) {
                    Ok((upvotes, is_upvoted)) => Event::CommentUpvoteToggled {
                        comment_id,
                        upvotes,
                        is_upvoted,
                    },
                    Err(e) => Event::Error { message: error_message(e) },
                }
            },
            Action::UpdateProfile { username, social_handle, description, avatar_uri } => {
                // The event names the wallet whose profile changed.
                let wallet = crate::identity::get_actor(
                    sessions,
                    msg_source,
                    session_for_account,
                    ActionsForSession::UpdateProfile,
                    now,
                );
                match self.update_profile(
                    username,
                    social_handle,
                    description,
                    avatar_uri,
                    session_for_account,
                    sessions,
                    msg_source,
                    now,
                ) {
                    Ok(()) => Event::ProfileUpdated { wallet: wallet.unwrap() },
                    Err(e) => Event::Error { message: error_message(e) },
                }
            },
        }
    }
}

} // verus!
