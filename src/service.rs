use vstd::prelude::*;

use crate::content::{content_verdict, prepare_content, trim_of, MAX_COMMENT_LEN, MAX_TEXT_LEN};
use crate::error::ForumError;
use crate::identity::{
    get_actor, lemma_expired_session_refused, lemma_live_session_acts_for_account, resolve_actor,
    ActionsForSession, ActorId, SessionTable,
};
use crate::reward::{calculate_vibes_reward, vibes_reward};
use crate::state::{
    lemma_ledger_after_post, lemma_ledger_after_profile_update, lemma_ledger_frame, bumped, comment_vote_toggled, creates_comment, creates_post, credited, on_post,
    post_vote_toggled, sat_add, with_fields, Comment, ForumState, Post, Profile,
};

verus! {

/// Why an action on an existing-or-not item is refused, if it is: the item
/// must exist, then the acting identity must resolve.
pub open spec fn refusal(exists: bool, resolved: Result<ActorId, ForumError>) -> Option<ForumError> {
    if !exists {
        Some(ForumError::NotFound)
    } else {
        match resolved {
            Err(e) => Some(e),
            Ok(_) => None,
        }
    }
}

/// Why a post is refused, if it is: its content is checked first, then the
/// acting identity.
pub open spec fn create_post_refusal(
    text: Seq<char>,
    has_image: bool,
    resolved: Result<ActorId, ForumError>,
) -> Option<ForumError> {
    match content_verdict(trim_of(text), has_image, MAX_TEXT_LEN) {
        Err(e) => Some(e),
        Ok(_) => match resolved {
            Err(e) => Some(e),
            Ok(_) => None,
        },
    }
}

/// Why a comment is refused, if it is: its content, then the post, then the
/// parent comment, then the acting identity.
pub open spec fn create_comment_refusal(
    text: Seq<char>,
    has_image: bool,
    post_exists: bool,
    parent_exists: bool,
    resolved: Result<ActorId, ForumError>,
) -> Option<ForumError> {
    match content_verdict(trim_of(text), has_image, MAX_COMMENT_LEN) {
        Err(e) => Some(e),
        Ok(_) => if !post_exists {
            Some(ForumError::NotFound)
        } else if !parent_exists {
            Some(ForumError::ParentNotFound)
        } else {
            match resolved {
                Err(e) => Some(e),
                Ok(_) => None,
            }
        },
    }
}

/// Whether the parent named by a comment, if any, exists in `s`.
pub open spec fn parent_exists(s: ForumState, parent_id: Option<u64>) -> bool {
    match parent_id {
        Some(q) => s.has_comment(q),
        None => true,
    }
}

/// The effect of creating a post with `text` (before trimming) and
/// `image_uri` by `actor` at `now`, from `s0` to `s1`.
pub open spec fn post_created(
    s0: ForumState,
    s1: ForumState,
    text: Seq<char>,
    image_uri: Option<String>,
    actor: ActorId,
    now: u64,
) -> bool {
    let reward = vibes_reward(now);
    &&& creates_post(s0, s1, s0.next_post_id())
    &&& s1.posts().last().author == actor
    &&& s1.posts().last().text@ == trim_of(text)
    &&& s1.posts().last().image_uri == image_uri
    &&& s1.posts().last().created_at == now
    &&& s1.posts().last().upvotes == 0
    &&& s1.posts().last().comment_count == 0
    &&& s1.profile_of(actor) == Some(credited(s0.profile_or_fresh(actor, now), reward))
    &&& forall|w: ActorId| w != actor ==> #[trigger] s1.profile_of(w) == s0.profile_of(w)
    &&& s1.balance_of(actor) == sat_add(s0.balance_of(actor), reward)
    &&& forall|w: ActorId| w != actor ==> #[trigger] s1.balance_of(w) == s0.balance_of(w)
    &&& s1.post_voters() == s0.post_voters().push(Seq::empty())
    &&& s1.comments() == s0.comments()
    &&& s1.comment_voters() == s0.comment_voters()
}

/// The effect of creating a comment on `post_id`, replying to `parent_id`
/// if given, with `text` (before trimming) and `image_uri`, by `actor` at
/// `now`, from `s0` to `s1`.
pub open spec fn comment_created(
    s0: ForumState,
    s1: ForumState,
    post_id: u64,
    parent_id: Option<u64>,
    text: Seq<char>,
    image_uri: Option<String>,
    actor: ActorId,
    now: u64,
) -> bool {
    &&& creates_comment(s0, s1, s0.next_comment_id())
    &&& s1.comments().last().post_id == post_id
    &&& s1.comments().last().parent_id == parent_id
    &&& s1.comments().last().author == actor
    &&& s1.comments().last().text@ == trim_of(text)
    &&& s1.comments().last().image_uri == image_uri
    &&& s1.comments().last().created_at == now
    &&& s1.comments().last().upvotes == 0
    &&& s1.comments().last().reply_count == 0
    &&& s1.comments().take(s0.comments().len() as int) == (match parent_id {
        Some(q) => s0.comments().update(
            q as int,
            Comment {
                reply_count: bumped(s0.comments()[q as int].reply_count),
                ..s0.comments()[q as int]
            },
        ),
        None => s0.comments(),
    })
    &&& s1.posts() == (match parent_id {
        Some(_) => s0.posts(),
        None => s0.posts().update(
            post_id as int,
            Post {
                comment_count: bumped(s0.posts()[post_id as int].comment_count),
                ..s0.posts()[post_id as int]
            },
        ),
    })
    &&& s1.comment_voters() == s0.comment_voters().push(Seq::empty())
    &&& s1.post_voters() == s0.post_voters()
    &&& s1.profiles() == s0.profiles()
    &&& s1.balances() == s0.balances()
}

/// The effect of `actor` setting the given profile fields at `now`, from
/// `s0` to `s1`.
pub open spec fn profile_updated(
    s0: ForumState,
    s1: ForumState,
    actor: ActorId,
    username: Option<String>,
    social_handle: Option<String>,
    description: Option<String>,
    avatar_uri: Option<String>,
    now: u64,
) -> bool {
    &&& s1.profile_of(actor) == Some(
        with_fields(
            s0.profile_or_fresh(actor, now),
            username,
            social_handle,
            description,
            avatar_uri,
        ),
    )
    &&& forall|w: ActorId| w != actor ==> #[trigger] s1.profile_of(w) == s0.profile_of(w)
    &&& forall|w: ActorId| #[trigger] s1.balance_of(w) == s0.balance_of(w)
    &&& s1.posts() == s0.posts()
    &&& s1.comments() == s0.comments()
    &&& s1.post_voters() == s0.post_voters()
    &&& s1.comment_voters() == s0.comment_voters()
}

/// The forum service: it owns the entity store and applies each action to
/// it, either wholly or not at all.
pub struct MiniRedditService {
    state: ForumState,
}

impl MiniRedditService {
    /// The entity store.
    pub closed spec fn state(&self) -> ForumState {
        self.state
    }

    /// The store's invariant, and profiles and balances in agreement with
    /// the posts.
    pub open spec fn wf(&self) -> bool {
        self.state().wf() && self.state().ledger_agrees()
    }

    /// A service over an empty forum.
    pub fn new() -> (r: MiniRedditService)
        ensures
            r.wf(),
            r.state().votes_agree(),
            r.state().posts().len() == 0,
            r.state().comments().len() == 0,
            r.state().profiles().len() == 0,
            r.state().balances().len() == 0,
    {
        MiniRedditService { state: ForumState::new() }
    }

    /// Creates a post with the trimmed `text` and `image_uri`, by the acting
    /// identity, and credits its author with the reward for `now`.
    pub fn create_post(
        &mut self,
        text: String,
        image_uri: Option<String>,
        session_for_account: Option<ActorId>,
        sessions: &SessionTable,
        msg_source: ActorId,
        now: u64,
    ) -> (r: Result<(u64, u64), ForumError>)
        requires
            old(self).wf(),
            old(self).state().posts().len() < usize::MAX,
        ensures
            final(self).wf(),
            old(self).state().votes_agree() ==> final(self).state().votes_agree(),
            match create_post_refusal(
                text@,
                image_uri is Some,
                resolve_actor(
                    *sessions,
                    msg_source,
                    session_for_account,
                    ActionsForSession::CreatePost,
                    now,
                ),
            ) {
                Some(e) => r == Err::<(u64, u64), ForumError>(e) && final(self).state() == old(
                    self,
                ).state(),
                None => r == Ok::<(u64, u64), ForumError>(
                    (old(self).state().next_post_id(), vibes_reward(now)),
                ) && post_created(
                    old(self).state(),
                    final(self).state(),
                    text@,
                    image_uri,
                    resolve_actor(
                        *sessions,
                        msg_source,
                        session_for_account,
                        ActionsForSession::CreatePost,
                        now,
                    )->Ok_0,
                    now,
                ),
            },
    {
        let has_image = image_uri.is_some();
        let trimmed = match prepare_content(text.as_str(), has_image, MAX_TEXT_LEN) {
            Ok(t) => t,
            Err(e) => return Err(e),
        };
        let actor = match get_actor(
            sessions,
            msg_source,
            session_for_account,
            ActionsForSession::CreatePost,
            now,
        ) {
            Ok(a) => a,
            Err(e) => return Err(e),
        };
        let vibes_earned = calculate_vibes_reward(now);
        let ghost s0 = self.state;
        self.state.credit_author(actor, vibes_earned, now);
        let ghost mid = self.state;
        let post_id = self.state.add_post(actor, trimmed, image_uri, now);
        proof {
            assert(self.state.posts().take(s0.posts().len() as int) =~= s0.posts());
            assert forall|w: ActorId| #[trigger] self.state.profile_of(w) == mid.profile_of(w) by {
                assert(self.state.profiles() == mid.profiles());
            }
            assert forall|w: ActorId| #[trigger] self.state.balance_of(w) == mid.balance_of(w) by {
                assert(self.state.balances() == mid.balances());
            }
            assert(self.state.authorship() =~= s0.authorship().push((actor, now)));
            lemma_ledger_after_post(s0, self.state, actor, now);
        }
        Ok((post_id, vibes_earned))
    }

    /// Toggles the acting identity's upvote on post `post_id`; returns the
    /// new count and whether the vote is now present.
    pub fn toggle_upvote(
        &mut self,
        post_id: u64,
        session_for_account: Option<ActorId>,
        sessions: &SessionTable,
        msg_source: ActorId,
        now: u64,
    ) -> (r: Result<(u32, bool), ForumError>)
        requires
            old(self).wf(),
        ensures
            final(self).wf(),
            match refusal(
                old(self).state().has_post(post_id),
                resolve_actor(
                    *sessions,
                    msg_source,
                    session_for_account,
                    ActionsForSession::ToggleUpvote,
                    now,
                ),
            ) {
                Some(e) => r == Err::<(u32, bool), ForumError>(e) && final(self).state() == old(
                    self,
                ).state(),
                None => r is Ok && post_vote_toggled(
                    old(self).state(),
                    final(self).state(),
                    post_id,
                    resolve_actor(
                        *sessions,
                        msg_source,
                        session_for_account,
                        ActionsForSession::ToggleUpvote,
                        now,
                    )->Ok_0,
                    r->Ok_0,
                ),
            },
            old(self).state().votes_agree() && (r is Ok ==> (old(self).state().post_voters()[post_id as int].contains(
                resolve_actor(
                    *sessions,
                    msg_source,
                    session_for_account,
                    ActionsForSession::ToggleUpvote,
                    now,
                )->Ok_0,
            ) || old(self).state().post_voters()[post_id as int].len() < u32::MAX))
                ==> final(self).state().votes_agree(),
    {
        if post_id >= self.state.post_count() as u64 {
            return Err(ForumError::NotFound);
        }
        let actor = match get_actor(
            sessions,
            msg_source,
            session_for_account,
            ActionsForSession::ToggleUpvote,
            now,
        ) {
            Ok(a) => a,
            Err(e) => return Err(e),
        };
        let ghost s0 = self.state;
        let r = self.state.toggle_post_vote(post_id, actor);
        proof {
            assert(self.state.authorship() =~= s0.authorship());
            lemma_ledger_frame(s0, self.state);
            if s0.votes_agree() && (s0.post_voters()[post_id as int].contains(actor)
                || s0.post_voters()[post_id as int].len() < u32::MAX) {
                crate::state::lemma_post_toggle_keeps_agreement(s0, self.state, post_id, actor, r);
            }
        }
        Ok(r)
    }

    /// Creates a comment on post `post_id` with the trimmed `text` and
    /// `image_uri`, as a reply to `parent_id` when that is given.
    pub fn create_comment(
        &mut self,
        post_id: u64,
        parent_id: Option<u64>,
        text: String,
        image_uri: Option<String>,
        session_for_account: Option<ActorId>,
        sessions: &SessionTable,
        msg_source: ActorId,
        now: u64,
    ) -> (r: Result<u64, ForumError>)
        requires
            old(self).wf(),
            old(self).state().comments().len() < usize::MAX,
        ensures
            final(self).wf(),
            old(self).state().votes_agree() ==> final(self).state().votes_agree(),
            match create_comment_refusal(
                text@,
                image_uri is Some,
                old(self).state().has_post(post_id),
                parent_exists(old(self).state(), parent_id),
                resolve_actor(
                    *sessions,
                    msg_source,
                    session_for_account,
                    ActionsForSession::CreateComment,
                    now,
                ),
            ) {
                Some(e) => r == Err::<u64, ForumError>(e) && final(self).state() == old(
                    self,
                ).state(),
                None => r == Ok::<u64, ForumError>(old(self).state().next_comment_id())
                    && comment_created(
                    old(self).state(),
                    final(self).state(),
                    post_id,
                    parent_id,
                    text@,
                    image_uri,
                    resolve_actor(
                        *sessions,
                        msg_source,
                        session_for_account,
                        ActionsForSession::CreateComment,
                        now,
                    )->Ok_0,
                    now,
                ),
            },
    {
        let has_image = image_uri.is_some();
        let trimmed = match prepare_content(text.as_str(), has_image, MAX_COMMENT_LEN) {
            Ok(t) => t,
            Err(e) => return Err(e),
        };
        if post_id >= self.state.post_count() as u64 {
            return Err(ForumError::NotFound);
        }
        if let Some(q) = parent_id {
            if q >= self.state.comment_total() as u64 {
                return Err(ForumError::ParentNotFound);
            }
        }
        let actor = match get_actor(
            sessions,
            msg_source,
            session_for_account,
            ActionsForSession::CreateComment,
            now,
        ) {
            Ok(a) => a,
            Err(e) => return Err(e),
        };
        let ghost s0 = self.state;
        let comment_id = self.state.add_comment(post_id, parent_id, actor, trimmed, image_uri, now);
        proof {
            assert(self.state.authorship() =~= s0.authorship());
            lemma_ledger_frame(s0, self.state);
            let len0 = s0.comments().len() as int;
            assert(self.state.comments().take(len0) =~= (match parent_id {
                Some(q) => s0.comments().update(
                    q as int,
                    Comment {
                        reply_count: bumped(s0.comments()[q as int].reply_count),
                        ..s0.comments()[q as int]
                    },
                ),
                None => s0.comments(),
            }));
        }
        Ok(comment_id)
    }

    /// Toggles the acting identity's upvote on comment `comment_id`; returns
    /// the new count and whether the vote is now present.
    pub fn toggle_comment_upvote(
        &mut self,
        comment_id: u64,
        session_for_account: Option<ActorId>,
        sessions: &SessionTable,
        msg_source: ActorId,
        now: u64,
    ) -> (r: Result<(u32, bool), ForumError>)
        requires
            old(self).wf(),
        ensures
            final(self).wf(),
            match refusal(
                old(self).state().has_comment(comment_id),
                resolve_actor(
                    *sessions,
                    msg_source,
                    session_for_account,
                    ActionsForSession::ToggleCommentUpvote,
                    now,
                ),
            ) {
                Some(e) => r == Err::<(u32, bool), ForumError>(e) && final(self).state() == old(
                    self,
                ).state(),
                None => r is Ok && comment_vote_toggled(
                    old(self).state(),
                    final(self).state(),
                    comment_id,
                    resolve_actor(
                        *sessions,
                        msg_source,
                        session_for_account,
                        ActionsForSession::ToggleCommentUpvote,
                        now,
                    )->Ok_0,
                    r->Ok_0,
                ),
            },
            old(self).state().votes_agree() && (r is Ok ==> (old(self).state().comment_voters()[comment_id as int].contains(
                resolve_actor(
                    *sessions,
                    msg_source,
                    session_for_account,
                    ActionsForSession::ToggleCommentUpvote,
                    now,
                )->Ok_0,
            ) || old(self).state().comment_voters()[comment_id as int].len() < u32::MAX))
                ==> final(self).state().votes_agree(),
    {
        if comment_id >= self.state.comment_total() as u64 {
            return Err(ForumError::NotFound);
        }
        let actor = match get_actor(
            sessions,
            msg_source,
            session_for_account,
            ActionsForSession::ToggleCommentUpvote,
            now,
        ) {
            Ok(a) => a,
            Err(e) => return Err(e),
        };
        let ghost s0 = self.state;
        let r = self.state.toggle_comment_vote(comment_id, actor);
        proof {
            assert(self.state.authorship() =~= s0.authorship());
            lemma_ledger_frame(s0, self.state);
            if s0.votes_agree() && (s0.comment_voters()[comment_id as int].contains(actor)
                || s0.comment_voters()[comment_id as int].len() < u32::MAX) {
                crate::state::lemma_comment_toggle_keeps_agreement(
                    s0,
                    self.state,
                    comment_id,
                    actor,
                    r,
                );
            }
        }
        Ok(r)
    }

    /// Overwrites each given field of the acting identity's profile, creating
    /// the profile at `now` where it is missing.
    pub fn update_profile(
        &mut self,
        username: Option<String>,
        social_handle: Option<String>,
        description: Option<String>,
        avatar_uri: Option<String>,
        session_for_account: Option<ActorId>,
        sessions: &SessionTable,
        msg_source: ActorId,
        now: u64,
    ) -> (r: Result<(), ForumError>)
        requires
            old(self).wf(),
        ensures
            final(self).wf(),
            old(self).state().votes_agree() ==> final(self).state().votes_agree(),
            match resolve_actor(
                *sessions,
                msg_source,
                session_for_account,
                ActionsForSession::UpdateProfile,
                now,
            ) {
                Err(e) => r == Err::<(), ForumError>(e) && final(self).state() == old(self).state(),
                Ok(actor) => r == Ok::<(), ForumError>(()) && profile_updated(
                    old(self).state(),
                    final(self).state(),
                    actor,
                    username,
                    social_handle,
                    description,
                    avatar_uri,
                    now,
                ),
            },
    {
        let actor = match get_actor(
            sessions,
            msg_source,
            session_for_account,
            ActionsForSession::UpdateProfile,
            now,
        ) {
            Ok(a) => a,
            Err(e) => return Err(e),
        };
        let ghost s0 = self.state;
        let ghost fields = (username, social_handle, description, avatar_uri);
        self.state.set_profile_fields(actor, username, social_handle, description, avatar_uri, now);
        proof {
            assert(self.state.authorship() =~= s0.authorship());
            lemma_ledger_after_profile_update(
                s0,
                self.state,
                actor,
                fields.0,
                fields.1,
                fields.2,
                fields.3,
                now,
            );
        }
        Ok(())
    }

    /// The number of posts.
    pub fn post_count(&self) -> (r: usize)
        ensures
            r == self.state().posts().len(),
    {
        self.state.post_count()
    }

    /// The number of comments.
    pub fn comment_count(&self) -> (r: usize)
        ensures
            r == self.state().comments().len(),
    {
        self.state.comment_total()
    }

    /// All posts, most recently created first.
    pub fn get_all_posts(&self) -> (r: Vec<Post>)
        ensures
            r@.len() == self.state().posts().len(),
            forall|i: int|
                0 <= i < r@.len() ==> #[trigger] r@[i] == self.state().posts()[self.state().posts().len()
                    - 1 - i],
    {
        self.state.posts_newest_first()
    }

    /// The comments on post `post_id`, in order of creation.
    pub fn get_comments_for_post(&self, post_id: u64) -> (r: Vec<Comment>)
        ensures
            r@ == self.state().comments().filter(on_post(post_id)),
    {
        self.state.comments_of_post(post_id)
    }

    /// All comments, in order of creation.
    pub fn get_all_comments(&self) -> (r: Vec<Comment>)
        ensures
            r@ == self.state().comments(),
    {
        self.state.all_comments()
    }

    /// The profile of `wallet`, if it has one.
    pub fn get_profile(&self, wallet: ActorId) -> (r: Option<Profile>)
        requires
            self.wf(),
        ensures
            r == self.state().profile_of(wallet),
    {
        self.state.profile(wallet)
    }

    /// The vibes balance of `wallet`; zero where it has none.
    pub fn get_vibes_balance(&self, wallet: ActorId) -> (r: u64)
        requires
            self.wf(),
        ensures
            r == self.state().balance_of(wallet),
    {
        self.state.balance(wallet)
    }
}

/// An action on an existing item, made through a session that has expired,
/// is refused with `SessionExpired`; made through a live session that permits
/// it, by the session's key, it goes through as the delegating account.
pub proof fn lemma_session_gating(
    sessions: SessionTable,
    caller: ActorId,
    account: ActorId,
    action: ActionsForSession,
    now: u64,
)
    requires
        sessions.session_of(account) is Some,
    ensures
        sessions.session_of(account).unwrap().expires <= now ==> refusal(
            true,
            resolve_actor(sessions, caller, Some(account), action, now),
        ) == Some(ForumError::SessionExpired),
        now < sessions.session_of(account).unwrap().expires
            && sessions.session_of(account).unwrap().allowed_actions@.contains(action)
            && sessions.session_of(account).unwrap().key == caller ==> {
            &&& refusal(true, resolve_actor(sessions, caller, Some(account), action, now)) == None::<
                ForumError,
            >
            &&& resolve_actor(sessions, caller, Some(account), action, now)->Ok_0 == account
        },
{
    if sessions.session_of(account).unwrap().expires <= now {
        lemma_expired_session_refused(sessions, caller, account, action, now);
    }
    if now < sessions.session_of(account).unwrap().expires
        && sessions.session_of(account).unwrap().allowed_actions@.contains(action)
        && sessions.session_of(account).unwrap().key == caller {
        lemma_live_session_acts_for_account(sessions, caller, account, action, now);
    }
}

} // verus!
