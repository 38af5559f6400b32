use vstd::prelude::*;
use vstd::seq_lib::*;

use crate::identity::ActorId;
use crate::reward::vibes_reward;

verus! {

broadcast use group_seq_properties;

/// A post. Its text, once trimmed, is non-empty unless an image is attached.
#[derive(Debug)]
pub struct Post {
    pub id: u64,
    pub author: ActorId,
    pub text: String,
    pub image_uri: Option<String>,
    pub created_at: u64,
    pub upvotes: u32,
    pub comment_count: u32,
}

/// A comment on a post; a reply when `parent_id` names another comment.
#[derive(Debug)]
pub struct Comment {
    pub id: u64,
    pub post_id: u64,
    pub parent_id: Option<u64>,
    pub author: ActorId,
    pub text: String,
    pub image_uri: Option<String>,
    pub created_at: u64,
    pub upvotes: u32,
    pub reply_count: u32,
}

/// What the forum knows of a wallet, created on its first post or profile update.
#[derive(Debug)]
pub struct Profile {
    pub wallet: ActorId,
    pub username: Option<String>,
    pub social_handle: Option<String>,
    pub description: Option<String>,
    pub avatar_uri: Option<String>,
    pub created_at: u64,
    pub total_posts: u32,
    pub total_vibes_earned: u64,
}

/// An exact copy of an optional text.
pub fn copy_text(t: &Option<String>) -> (r: Option<String>)
    ensures
        r == *t,
{
    match t {
        Some(s) => Some(s.clone()),
        None => None,
    }
}

impl Post {
    /// An exact copy of the post.
    pub fn duplicate(&self) -> (r: Post)
        ensures
            r == *self,
    {
        Post {
            id: self.id,
            author: self.author,
            text: self.text.clone(),
            image_uri: copy_text(&self.image_uri),
            created_at: self.created_at,
            upvotes: self.upvotes,
            comment_count: self.comment_count,
        }
    }
}

impl Comment {
    /// An exact copy of the comment.
    pub fn duplicate(&self) -> (r: Comment)
        ensures
            r == *self,
    {
        Comment {
            id: self.id,
            post_id: self.post_id,
            parent_id: self.parent_id,
            author: self.author,
            text: self.text.clone(),
            image_uri: copy_text(&self.image_uri),
            created_at: self.created_at,
            upvotes: self.upvotes,
            reply_count: self.reply_count,
        }
    }
}

impl Profile {
    /// An exact copy of the profile.
    pub fn duplicate(&self) -> (r: Profile)
        ensures
            r == *self,
    {
        Profile {
            wallet: self.wallet,
            username: copy_text(&self.username),
            social_handle: copy_text(&self.social_handle),
            description: copy_text(&self.description),
            avatar_uri: copy_text(&self.avatar_uri),
            created_at: self.created_at,
            total_posts: self.total_posts,
            total_vibes_earned: self.total_vibes_earned,
        }
    }
}

/// `n`, or the largest `u32` where `n` does not fit.
pub open spec fn capped(n: nat) -> u32 {
    if n > u32::MAX {
        u32::MAX
    } else {
        n as u32
    }
}

/// A counter after one more increment, saturating at the largest `u32`.
pub open spec fn bumped(c: u32) -> u32 {
    if c == u32::MAX {
        u32::MAX
    } else {
        (c + 1) as u32
    }
}

/// A counter after one decrement, never below zero.
pub open spec fn dropped(c: u32) -> u32 {
    if c == 0 {
        0
    } else {
        (c - 1) as u32
    }
}

/// The post and the parent comment (if any) of a comment.
pub open spec fn link_of(c: Comment) -> (u64, Option<u64>) {
    (c.post_id, c.parent_id)
}

/// Whether a comment link is that of a top-level comment of post `post`.
pub open spec fn top_level_of(post: u64) -> spec_fn((u64, Option<u64>)) -> bool {
    |l: (u64, Option<u64>)| l.0 == post && l.1 is None
}

/// Whether a comment link is that of a reply to comment `parent`.
pub open spec fn reply_to(parent: u64) -> spec_fn((u64, Option<u64>)) -> bool {
    |l: (u64, Option<u64>)| l.1 == Some(parent)
}

/// A profile with no fields set and no activity, created at `now`.
pub open spec fn fresh_profile(wallet: ActorId, now: u64) -> Profile {
    Profile {
        wallet,
        username: None,
        social_handle: None,
        description: None,
        avatar_uri: None,
        created_at: now,
        total_posts: 0,
        total_vibes_earned: 0,
    }
}

/// `a + b`, or the largest `u64` where the sum does not fit.
pub open spec fn sat_add(a: u64, b: u64) -> u64 {
    if a + b > u64::MAX {
        u64::MAX
    } else {
        (a + b) as u64
    }
}

/// A profile after one more post that earned `reward`.
pub open spec fn credited(p: Profile, reward: u64) -> Profile {
    Profile {
        total_posts: bumped(p.total_posts),
        total_vibes_earned: sat_add(p.total_vibes_earned, reward),
        ..p
    }
}

/// A profile with each given field overwritten and each absent one kept.
pub open spec fn with_fields(
    p: Profile,
    username: Option<String>,
    social_handle: Option<String>,
    description: Option<String>,
    avatar_uri: Option<String>,
) -> Profile {
    Profile {
        username: if username is Some {
            username
        } else {
            p.username
        },
        social_handle: if social_handle is Some {
            social_handle
        } else {
            p.social_handle
        },
        description: if description is Some {
            description
        } else {
            p.description
        },
        avatar_uri: if avatar_uri is Some {
            avatar_uri
        } else {
            p.avatar_uri
        },
        ..p
    }
}

/// Whether a comment belongs to post `post`.
pub open spec fn on_post(post: u64) -> spec_fn(Comment) -> bool {
    |c: Comment| c.post_id == post
}

/// `n`, or the largest `u64` where `n` does not fit.
pub open spec fn capped64(n: nat) -> u64 {
    if n > u64::MAX {
        u64::MAX
    } else {
        n as u64
    }
}

/// How many of the `(author, created_at)` entries are by `w`.
pub open spec fn posts_by(entries: Seq<(ActorId, u64)>, w: ActorId) -> nat
    decreases entries.len(),
{
    if entries.len() == 0 {
        0
    } else {
        posts_by(entries.drop_last(), w) + if entries.last().0 == w {
            1nat
        } else {
            0nat
        }
    }
}

/// The rewards earned by `w` for the `(author, created_at)` entries.
pub open spec fn earned_by(entries: Seq<(ActorId, u64)>, w: ActorId) -> nat
    decreases entries.len(),
{
    if entries.len() == 0 {
        0
    } else {
        earned_by(entries.drop_last(), w) + if entries.last().0 == w {
            vibes_reward(entries.last().1) as nat
        } else {
            0nat
        }
    }
}

/// The entity store: posts, comments, profiles, balances and the voters of
/// each post and comment, kept in agreement with one another.
pub struct ForumState {
    next_id: u64,
    next_comment_id: u64,
    posts: Vec<Post>,
    comments: Vec<Comment>,
    profiles: Vec<Profile>,
    vibes_balances: Vec<(ActorId, u64)>,
    post_voters: Vec<Vec<ActorId>>,
    comment_voters: Vec<Vec<ActorId>>,
}

/// Adds `voter` to `voters`, or removes it where it is already there; tells
/// whether it was there.
fn toggle_voter(voters: &mut Vec<ActorId>, voter: ActorId) -> (was: bool)
    requires
        old(voters)@.no_duplicates(),
    ensures
        was == old(voters)@.contains(voter),
        final(voters)@.no_duplicates(),
        final(voters)@.to_set() == (if was {
            old(voters)@.to_set().remove(voter)
        } else {
            old(voters)@.to_set().insert(voter)
        }),
        final(voters)@.len() == (if was {
            old(voters)@.len() - 1
        } else {
            (old(voters)@.len() + 1) as int
        }),
{
    let mut j: usize = 0;
    while j < voters.len()
        invariant
            j <= voters@.len(),
            voters@ == old(voters)@,
            voters@.no_duplicates(),
            forall|k: int| 0 <= k < j ==> voters@[k] != voter,
        decreases voters@.len() - j,
    {
        if voters[j] == voter {
            let ghost pre = voters@;
            voters.remove(j);
            proof {
                let post = voters@;
                pre.remove_ensures(j as int);
                assert(pre[j as int] == voter);
                assert forall|a: int, b: int| 0 <= a < b < post.len() implies post[a] != post[b] by {
                    let a1 = if a < j { a } else { a + 1 };
                    let b1 = if b < j { b } else { b + 1 };
                    assert(post[a] == pre[a1] && post[b] == pre[b1]);
                }
                assert forall|x: ActorId| post.contains(x) <==> pre.to_set().remove(voter).contains(
                    x,
                ) by {
                    if post.contains(x) {
                        let k = choose|k: int| 0 <= k < post.len() && post[k] == x;
                        let k1 = if k < j { k } else { k + 1 };
                        assert(pre[k1] == x);
                        assert(k1 != j);
                    }
                    if pre.contains(x) && x != voter {
                        let k = choose|k: int| 0 <= k < pre.len() && pre[k] == x;
                        if k < j {
                            assert(post[k] == x);
                        } else {
                            assert(post[k - 1] == x);
                        }
                    }
                }
                assert(post.to_set() =~= pre.to_set().remove(voter));
            }
            return true;
        }
        j = j + 1;
    }
    let ghost pre = voters@;
    voters.push(voter);
    proof {
        pre.lemma_push_to_set_commute(voter);
        assert(!pre.contains(voter));
        assert forall|a: int, b: int| 0 <= a < b < voters@.len() implies voters@[a] != voters@[b] by {
            if b == pre.len() {
                assert(pre.contains(voters@[a]));
            }
        }
    }
    false
}

/// The effect of toggling `voter`'s upvote on post `p`, from `s0` to `s1`,
/// with its result `r`: the new count and whether the vote is now present.
pub open spec fn post_vote_toggled(
    s0: ForumState,
    s1: ForumState,
    p: u64,
    voter: ActorId,
    r: (u32, bool),
) -> bool {
    let i = p as int;
    let was = s0.post_voters()[i].contains(voter);
    let count = if was {
        dropped(s0.posts()[i].upvotes)
    } else {
        bumped(s0.posts()[i].upvotes)
    };
    &&& r == (count, !was)
    &&& s1.posts() == s0.posts().update(i, Post { upvotes: count, ..s0.posts()[i] })
    &&& s1.post_voters().len() == s0.post_voters().len()
    &&& forall|j: int|
        0 <= j < s0.post_voters().len() && j != i ==> #[trigger] s1.post_voters()[j]
            == s0.post_voters()[j]
    &&& s1.post_voters()[i].to_set() == (if was {
        s0.post_voters()[i].to_set().remove(voter)
    } else {
        s0.post_voters()[i].to_set().insert(voter)
    })
    &&& s1.post_voters()[i].len() == (if was {
        s0.post_voters()[i].len() - 1
    } else {
        (s0.post_voters()[i].len() + 1) as int
    })
    &&& s1.comments() == s0.comments()
    &&& s1.comment_voters() == s0.comment_voters()
    &&& s1.profiles() == s0.profiles()
    &&& s1.balances() == s0.balances()
    &&& s1.next_post_id() == s0.next_post_id()
    &&& s1.next_comment_id() == s0.next_comment_id()
}

/// The effect of toggling `voter`'s upvote on comment `c`, from `s0` to `s1`,
/// with its result `r`: the new count and whether the vote is now present.
pub open spec fn comment_vote_toggled(
    s0: ForumState,
    s1: ForumState,
    c: u64,
    voter: ActorId,
    r: (u32, bool),
) -> bool {
    let i = c as int;
    let was = s0.comment_voters()[i].contains(voter);
    let count = if was {
        dropped(s0.comments()[i].upvotes)
    } else {
        bumped(s0.comments()[i].upvotes)
    };
    &&& r == (count, !was)
    &&& s1.comments() == s0.comments().update(i, Comment { upvotes: count, ..s0.comments()[i] })
    &&& s1.comment_voters().len() == s0.comment_voters().len()
    &&& forall|j: int|
        0 <= j < s0.comment_voters().len() && j != i ==> #[trigger] s1.comment_voters()[j]
            == s0.comment_voters()[j]
    &&& s1.comment_voters()[i].to_set() == (if was {
        s0.comment_voters()[i].to_set().remove(voter)
    } else {
        s0.comment_voters()[i].to_set().insert(voter)
    })
    &&& s1.comment_voters()[i].len() == (if was {
        s0.comment_voters()[i].len() - 1
    } else {
        (s0.comment_voters()[i].len() + 1) as int
    })
    &&& s1.posts() == s0.posts()
    &&& s1.post_voters() == s0.post_voters()
    &&& s1.profiles() == s0.profiles()
    &&& s1.balances() == s0.balances()
    &&& s1.next_post_id() == s0.next_post_id()
    &&& s1.next_comment_id() == s0.next_comment_id()
}

impl ForumState {
    /// The posts in order of creation; a post's id is its position.
    pub closed spec fn posts(&self) -> Seq<Post> {
        self.posts@
    }

    /// The comments in order of creation; a comment's id is its position.
    pub closed spec fn comments(&self) -> Seq<Comment> {
        self.comments@
    }

    /// The profiles, at most one per wallet.
    pub closed spec fn profiles(&self) -> Seq<Profile> {
        self.profiles@
    }

    /// The vibes balances, at most one per wallet.
    pub closed spec fn balances(&self) -> Seq<(ActorId, u64)> {
        self.vibes_balances@
    }

    /// For each post, the identities that currently upvote it.
    pub closed spec fn post_voters(&self) -> Seq<Seq<ActorId>> {
        self.post_voters@.map_values(|v: Vec<ActorId>| v@)
    }

    /// For each comment, the identities that currently upvote it.
    pub closed spec fn comment_voters(&self) -> Seq<Seq<ActorId>> {
        self.comment_voters@.map_values(|v: Vec<ActorId>| v@)
    }

    /// The id that the next post will get.
    pub closed spec fn next_post_id(&self) -> u64 {
        self.next_id
    }

    /// The id that the next comment will get.
    pub closed spec fn next_comment_id(&self) -> u64 {
        self.next_comment_id
    }

    /// The post-vote membership set: `(post id, voter)` pairs.
    pub open spec fn post_votes(&self) -> Set<(u64, ActorId)> {
        Set::new(
            |e: (u64, ActorId)|
                e.0 < self.post_voters().len() && self.post_voters()[e.0 as int].contains(e.1),
        )
    }

    /// The comment-vote membership set: `(comment id, voter)` pairs.
    pub open spec fn comment_votes(&self) -> Set<(u64, ActorId)> {
        Set::new(
            |e: (u64, ActorId)|
                e.0 < self.comment_voters().len() && self.comment_voters()[e.0 as int].contains(
                    e.1,
                ),
        )
    }

    /// For each comment, its post and its parent comment (if any).
    pub open spec fn links(&self) -> Seq<(u64, Option<u64>)> {
        self.comments().map_values(|c: Comment| link_of(c))
    }

    /// For each post, its author and its creation time.
    pub open spec fn authorship(&self) -> Seq<(ActorId, u64)> {
        self.posts().map_values(|p: Post| (p.author, p.created_at))
    }

    /// Profiles and balances agree with the posts: a wallet with posts has a
    /// profile, whose post count and earned total are those of its posts
    /// (saturating), and its balance is its earned total (saturating).
    pub open spec fn ledger_agrees(&self) -> bool {
        &&& forall|w: ActorId|
            #[trigger] self.profile_of(w) matches Some(p) ==> p.total_posts == capped(
                posts_by(self.authorship(), w),
            ) && p.total_vibes_earned == capped64(earned_by(self.authorship(), w))
        &&& forall|w: ActorId|
            posts_by(self.authorship(), w) > 0 ==> (#[trigger] self.profile_of(w)) is Some
        &&& forall|w: ActorId| #[trigger]
            self.balance_of(w) == capped64(earned_by(self.authorship(), w))
    }

    /// How many comments are top-level comments of post `post`.
    pub open spec fn top_level_count(&self, post: u64) -> nat {
        self.links().filter(top_level_of(post)).len()
    }

    /// How many comments are replies to comment `parent`.
    pub open spec fn reply_total(&self, parent: u64) -> nat {
        self.links().filter(reply_to(parent)).len()
    }

    /// Whether a post with this id exists.
    pub open spec fn has_post(&self, id: u64) -> bool {
        id < self.posts().len()
    }

    /// Whether a comment with this id exists.
    pub open spec fn has_comment(&self, id: u64) -> bool {
        id < self.comments().len()
    }

    /// The profile of `wallet`, if it has one.
    pub open spec fn profile_of(&self, wallet: ActorId) -> Option<Profile> {
        if exists|i: int| 0 <= i < self.profiles().len() && self.profiles()[i].wallet == wallet {
            Some(
                self.profiles()[choose|i: int|
                    0 <= i < self.profiles().len() && self.profiles()[i].wallet == wallet],
            )
        } else {
            None
        }
    }

    /// The vibes balance of `wallet`: zero until it is first credited.
    pub open spec fn balance_of(&self, wallet: ActorId) -> u64 {
        if exists|i: int| 0 <= i < self.balances().len() && self.balances()[i].0 == wallet {
            self.balances()[choose|i: int|
                0 <= i < self.balances().len() && self.balances()[i].0 == wallet].1
        } else {
            0
        }
    }

    /// The profile of `wallet`, or a fresh one created at `now`.
    pub open spec fn profile_or_fresh(&self, wallet: ActorId, now: u64) -> Profile {
        match self.profile_of(wallet) {
            Some(p) => p,
            None => fresh_profile(wallet, now),
        }
    }

    /// The store's invariant: ids are positions, every vote and comment points
    /// at an existing item, voters are listed once, comment and reply counters
    /// agree with the comment tree, and wallets are keyed once.
    pub open spec fn wf(&self) -> bool {
        &&& self.ids_ok()
        &&& self.posts_ok()
        &&& self.comments_ok()
        &&& self.voters_ok()
        &&& self.keys_ok()
    }

    /// Ids are handed out in order, one item for each.
    pub open spec fn ids_ok(&self) -> bool {
        &&& self.next_post_id() as int == self.posts().len()
        &&& self.next_comment_id() as int == self.comments().len()
        &&& self.post_voters().len() == self.posts().len()
        &&& self.comment_voters().len() == self.comments().len()
    }

    /// Each post sits at its id, has content, and counts its top-level comments.
    pub open spec fn posts_ok(&self) -> bool {
        forall|i: int|
            #![trigger self.posts()[i]]
            0 <= i < self.posts().len() ==> {
                &&& self.posts()[i].id as int == i
                &&& self.posts()[i].comment_count == capped(self.top_level_count(i as u64))
                &&& (self.posts()[i].text@.len() > 0 || self.posts()[i].image_uri is Some)
            }
    }

    /// Each comment sits at its id, has content, points at an existing post
    /// and an earlier parent, and counts its replies.
    pub open spec fn comments_ok(&self) -> bool {
        forall|i: int|
            #![trigger self.comments()[i]]
            0 <= i < self.comments().len() ==> {
                &&& self.comments()[i].id as int == i
                &&& self.comments()[i].post_id < self.posts().len()
                &&& (self.comments()[i].parent_id matches Some(q) ==> q < i)
                &&& self.comments()[i].reply_count == capped(self.reply_total(i as u64))
                &&& (self.comments()[i].text@.len() > 0 || self.comments()[i].image_uri is Some)
            }
    }

    /// No identity is listed twice as the voter of one item.
    pub open spec fn voters_ok(&self) -> bool {
        &&& forall|i: int|
            0 <= i < self.post_voters().len() ==> (#[trigger] self.post_voters()[i]).no_duplicates()
        &&& forall|i: int|
            0 <= i < self.comment_voters().len() ==> (
            #[trigger] self.comment_voters()[i]).no_duplicates()
    }

    /// No wallet has two profiles or two balances.
    pub open spec fn keys_ok(&self) -> bool {
        &&& forall|i: int, j: int|
            0 <= i < j < self.profiles().len() ==> #[trigger] self.profiles()[i].wallet
                != #[trigger] self.profiles()[j].wallet
        &&& forall|i: int, j: int|
            0 <= i < j < self.balances().len() ==> #[trigger] self.balances()[i].0
                != #[trigger] self.balances()[j].0
    }

    /// Every upvote counter equals the number of identities upvoting its item.
    pub open spec fn votes_agree(&self) -> bool {
        &&& forall|i: int|
            0 <= i < self.posts().len() ==> #[trigger] self.posts()[i].upvotes
                == self.post_voters()[i].len()
        &&& forall|i: int|
            0 <= i < self.comments().len() ==> #[trigger] self.comments()[i].upvotes
                == self.comment_voters()[i].len()
    }

    /// An empty store.
    pub fn new() -> (r: ForumState)
        ensures
            r.wf(),
            r.votes_agree(),
            r.ledger_agrees(),
            r.posts().len() == 0,
            r.comments().len() == 0,
            r.profiles().len() == 0,
            r.balances().len() == 0,
    {
        let r = ForumState {
            next_id: 0,
            next_comment_id: 0,
            posts: Vec::new(),
            comments: Vec::new(),
            profiles: Vec::new(),
            vibes_balances: Vec::new(),
            post_voters: Vec::new(),
            comment_voters: Vec::new(),
        };
        assert(r.post_voters() =~= Seq::<Seq<ActorId>>::empty());
        assert(r.authorship() =~= Seq::<(ActorId, u64)>::empty());
        assert(r.comment_voters() =~= Seq::<Seq<ActorId>>::empty());
        r
    }

    /// The number of posts.
    pub fn post_count(&self) -> (r: usize)
        ensures
            r == self.posts().len(),
    {
        self.posts.len()
    }

    /// The number of comments.
    pub fn comment_total(&self) -> (r: usize)
        ensures
            r == self.comments().len(),
    {
        self.comments.len()
    }

    /// Toggles `voter`'s upvote on post `post_id`.
    pub fn toggle_post_vote(&mut self, post_id: u64, voter: ActorId) -> (r: (u32, bool))
        requires
            old(self).wf(),
            old(self).has_post(post_id),
        ensures
            final(self).wf(),
            post_vote_toggled(*old(self), *final(self), post_id, voter, r),
    {
        proof {
            assert(self.posts.len() == self.posts@.len());
        }
        let idx = post_id as usize;
        let ghost pre = *self;
        assert(self.post_voters@[idx as int]@ == self.post_voters()[idx as int]);
        let was = toggle_voter(&mut self.post_voters[idx], voter);
        let count = if was {
            let up = self.posts[idx].upvotes;
            if up > 0 {
                up - 1
            } else {
                0
            }
        } else {
            self.posts[idx].upvotes.saturating_add(1)
        };
        self.posts[idx].upvotes = count;
        proof {
            assert(self.post_voters() =~= pre.post_voters().update(
                idx as int,
                self.post_voters@[idx as int]@,
            ));
            assert(self.posts() =~= pre.posts().update(
                idx as int,
                Post { upvotes: count, ..pre.posts()[idx as int] },
            ));
            assert(self.post_voters()[idx as int].no_duplicates());
            assert(self.comments() == pre.comments());
            assert(self.links() == pre.links());
            assert(self.profiles() == pre.profiles());
            assert(self.balances() == pre.balances());
        }
        (count, !was)
    }

    /// Toggles `voter`'s upvote on comment `comment_id`.
    pub fn toggle_comment_vote(&mut self, comment_id: u64, voter: ActorId) -> (r: (u32, bool))
        requires
            old(self).wf(),
            old(self).has_comment(comment_id),
        ensures
            final(self).wf(),
            comment_vote_toggled(*old(self), *final(self), comment_id, voter, r),
    {
        proof {
            assert(self.comments.len() == self.comments@.len());
        }
        let idx = comment_id as usize;
        let ghost pre = *self;
        assert(self.comment_voters@[idx as int]@ == self.comment_voters()[idx as int]);
        let was = toggle_voter(&mut self.comment_voters[idx], voter);
        let count = if was {
            let up = self.comments[idx].upvotes;
            if up > 0 {
                up - 1
            } else {
                0
            }
        } else {
            self.comments[idx].upvotes.saturating_add(1)
        };
        self.comments[idx].upvotes = count;
        proof {
            assert(self.comment_voters() =~= pre.comment_voters().update(
                idx as int,
                self.comment_voters@[idx as int]@,
            ));
            assert(self.comments() =~= pre.comments().update(
                idx as int,
                Comment { upvotes: count, ..pre.comments()[idx as int] },
            ));
            assert(self.links() =~= pre.links());
            assert(self.comment_voters()[idx as int].no_duplicates());
            assert(self.posts() == pre.posts());
            assert(self.profiles() == pre.profiles());
            assert(self.balances() == pre.balances());
        }
        (count, !was)
    }

    /// Appends a post by `author`; its id is the next post id.
    pub fn add_post(&mut self, author: ActorId, text: String, image_uri: Option<String>, now: u64) -> (id: u64)
        requires
            old(self).wf(),
            old(self).posts().len() < usize::MAX,
            text@.len() > 0 || image_uri is Some,
        ensures
            final(self).wf(),
            id == old(self).next_post_id(),
            id as int == old(self).posts().len(),
            final(self).next_post_id() == id + 1,
            final(self).posts() == old(self).posts().push(
                Post { id, author, text, image_uri, created_at: now, upvotes: 0, comment_count: 0 },
            ),
            final(self).post_voters() == old(self).post_voters().push(Seq::empty()),
            old(self).votes_agree() ==> final(self).votes_agree(),
            final(self).comments() == old(self).comments(),
            final(self).comment_voters() == old(self).comment_voters(),
            final(self).profiles() == old(self).profiles(),
            final(self).balances() == old(self).balances(),
            final(self).next_comment_id() == old(self).next_comment_id(),
    {
        let ghost pre = *self;
        let id = self.next_id;
        self.next_id = self.next_id.saturating_add(1);
        self.posts.push(
            Post { id, author, text, image_uri, created_at: now, upvotes: 0, comment_count: 0 },
        );
        self.post_voters.push(Vec::new());
        proof {
            assert(self.post_voters() =~= pre.post_voters().push(Seq::empty()));
            assert(self.links() == pre.links());
            assert(self.links().all(|l: (u64, Option<u64>)| !top_level_of(id)(l)));
            self.links().lemma_all_neg_filter_empty(top_level_of(id));
            assert(self.comments() == pre.comments());
            assert(self.top_level_count(id) == 0);
            assert(self.post_voters()[id as int].no_duplicates());
            assert(self.ids_ok());
            assert(self.posts_ok());
            assert(self.comments_ok());
            assert(self.voters_ok());
            assert(self.profiles() =~= pre.profiles());
            assert(self.balances() =~= pre.balances());
            assert(self.keys_ok());
        }
        id
    }

    /// Appends a comment on post `post_id` by `author`, as a reply to
    /// `parent_id` when that is given; bumps the parent's reply counter, or
    /// the post's comment counter for a top-level comment.
    pub fn add_comment(
        &mut self,
        post_id: u64,
        parent_id: Option<u64>,
        author: ActorId,
        text: String,
        image_uri: Option<String>,
        now: u64,
    ) -> (id: u64)
        requires
            old(self).wf(),
            old(self).has_post(post_id),
            parent_id matches Some(q) ==> old(self).has_comment(q),
            old(self).comments().len() < usize::MAX,
            text@.len() > 0 || image_uri is Some,
        ensures
            final(self).wf(),
            id == old(self).next_comment_id(),
            id as int == old(self).comments().len(),
            final(self).next_comment_id() == id + 1,
            final(self).comments() == (match parent_id {
                Some(q) => old(self).comments().update(
                    q as int,
                    Comment {
                        reply_count: bumped(old(self).comments()[q as int].reply_count),
                        ..old(self).comments()[q as int]
                    },
                ),
                None => old(self).comments(),
            }).push(
                Comment {
                    id,
                    post_id,
                    parent_id,
                    author,
                    text,
                    image_uri,
                    created_at: now,
                    upvotes: 0,
                    reply_count: 0,
                },
            ),
            final(self).posts() == (match parent_id {
                Some(_) => old(self).posts(),
                None => old(self).posts().update(
                    post_id as int,
                    Post {
                        comment_count: bumped(old(self).posts()[post_id as int].comment_count),
                        ..old(self).posts()[post_id as int]
                    },
                ),
            }),
            final(self).comment_voters() == old(self).comment_voters().push(Seq::empty()),
            old(self).votes_agree() ==> final(self).votes_agree(),
            final(self).post_voters() == old(self).post_voters(),
            final(self).profiles() == old(self).profiles(),
            final(self).balances() == old(self).balances(),
            final(self).next_post_id() == old(self).next_post_id(),
    {
        let ghost pre = *self;
        proof {
            assert(self.posts.len() == self.posts@.len());
            assert(self.comments.len() == self.comments@.len());
        }
        match parent_id {
            Some(q) => {
                let qi = q as usize;
                self.comments[qi].reply_count = self.comments[qi].reply_count.saturating_add(1);
            },
            None => {
                let pi = post_id as usize;
                self.posts[pi].comment_count = self.posts[pi].comment_count.saturating_add(1);
            },
        }
        let ghost mid = *self;
        let id = self.next_comment_id;
        self.next_comment_id = self.next_comment_id.saturating_add(1);
        let link = (post_id, parent_id);
        self.comments.push(
            Comment {
                id,
                post_id,
                parent_id,
                author,
                text,
                image_uri,
                created_at: now,
                upvotes: 0,
                reply_count: 0,
            },
        );
        self.comment_voters.push(Vec::new());
        proof {
            assert(mid.links() =~= pre.links());
            assert(self.links() =~= pre.links().push(link));
            assert(self.comment_voters() =~= pre.comment_voters().push(Seq::empty()));
            assert forall|p: u64| #[trigger]
                self.top_level_count(p) == pre.top_level_count(p) + (if top_level_of(p)(link) {
                    1int
                } else {
                    0int
                }) by {
                pre.links().lemma_filter_len_push(top_level_of(p), link);
            }
            assert forall|c: u64| #[trigger]
                self.reply_total(c) == pre.reply_total(c) + (if reply_to(c)(link) {
                    1int
                } else {
                    0int
                }) by {
                pre.links().lemma_filter_len_push(reply_to(c), link);
            }
            assert(pre.links().all(|l: (u64, Option<u64>)| !reply_to(id)(l)));
            pre.links().lemma_all_neg_filter_empty(reply_to(id));
            assert(self.reply_total(id) == 0);
            assert(self.ids_ok());
            assert(self.posts_ok());
            assert(self.comments_ok());
            assert(self.voters_ok());
            assert(self.profiles() =~= pre.profiles());
            assert(self.balances() =~= pre.balances());
            assert(self.keys_ok());
        }
        id
    }

    /// The position of `wallet`'s profile, if it has one.
    fn find_profile(&self, wallet: ActorId) -> (r: Option<usize>)
        ensures
            match r {
                Some(i) => i < self.profiles().len() && self.profiles()[i as int].wallet == wallet,
                None => forall|i: int|
                    0 <= i < self.profiles().len() ==> self.profiles()[i].wallet != wallet,
            },
    {
        let mut i: usize = 0;
        while i < self.profiles.len()
            invariant
                i <= self.profiles@.len(),
                forall|k: int| 0 <= k < i ==> self.profiles@[k].wallet != wallet,
            decreases self.profiles@.len() - i,
        {
            if self.profiles[i].wallet == wallet {
                return Some(i);
            }
            i = i + 1;
        }
        None
    }

    /// The position of `wallet`'s balance, if it has one.
    fn find_balance(&self, wallet: ActorId) -> (r: Option<usize>)
        ensures
            match r {
                Some(i) => i < self.balances().len() && self.balances()[i as int].0 == wallet,
                None => forall|i: int|
                    0 <= i < self.balances().len() ==> self.balances()[i].0 != wallet,
            },
    {
        let mut i: usize = 0;
        while i < self.vibes_balances.len()
            invariant
                i <= self.vibes_balances@.len(),
                forall|k: int| 0 <= k < i ==> self.vibes_balances@[k].0 != wallet,
            decreases self.vibes_balances@.len() - i,
        {
            if self.vibes_balances[i].0 == wallet {
                return Some(i);
            }
            i = i + 1;
        }
        None
    }

    /// Stores `p` as the profile of its wallet, replacing any earlier one.
    fn put_profile(&mut self, p: Profile)
        requires
            old(self).wf(),
        ensures
            final(self).wf(),
            final(self).profile_of(p.wallet) == Some(p),
            forall|w: ActorId|
                w != p.wallet ==> #[trigger] final(self).profile_of(w) == old(self).profile_of(w),
            final(self).posts() == old(self).posts(),
            final(self).comments() == old(self).comments(),
            final(self).post_voters() == old(self).post_voters(),
            final(self).comment_voters() == old(self).comment_voters(),
            final(self).balances() == old(self).balances(),
            final(self).next_post_id() == old(self).next_post_id(),
            final(self).next_comment_id() == old(self).next_comment_id(),
    {
        let ghost pre = *self;
        let ghost w = p.wallet;
        let ghost q = p;
        let i = match self.find_profile(p.wallet) {
            Some(i) => {
                self.profiles[i] = p;
                i
            },
            None => {
                let n = self.profiles.len();
                self.profiles.push(p);
                n
            },
        };
        proof {
            let ps = self.profiles();
            assert(self.posts() == pre.posts());
            assert(self.comments() == pre.comments());
            assert(self.links() == pre.links());
            assert(ps[i as int] == q);
            assert forall|a: int, b: int|
                0 <= a < b < ps.len() implies #[trigger] ps[a].wallet != #[trigger] ps[b].wallet by {
                if a != i && b != i {
                    assert(ps[a] == pre.profiles()[a] && ps[b] == pre.profiles()[b]);
                }
            }
            assert(self.profile_of(w) == Some(q));
            assert forall|x: ActorId| x != w implies #[trigger] self.profile_of(x) == pre.profile_of(
                x,
            ) by {
                if exists|k: int| 0 <= k < pre.profiles().len() && pre.profiles()[k].wallet == x {
                    let k = choose|k: int|
                        0 <= k < pre.profiles().len() && pre.profiles()[k].wallet == x;
                    assert(ps[k] == pre.profiles()[k]);
                    let k1 = choose|k: int| 0 <= k < ps.len() && ps[k].wallet == x;
                    assert(k1 == k);
                }
                if exists|k: int| 0 <= k < ps.len() && ps[k].wallet == x {
                    let k = choose|k: int| 0 <= k < ps.len() && ps[k].wallet == x;
                    assert(k != i);
                    assert(pre.profiles()[k].wallet == x);
                }
            }
            assert(self.ids_ok());
            assert(self.posts_ok());
            assert(self.comments_ok());
            assert(self.voters_ok());
            assert(self.balances() =~= pre.balances());
            assert(self.keys_ok());
        }
    }

    /// Sets `wallet`'s balance to `amount`, adding the wallet where it has none.
    fn put_balance(&mut self, wallet: ActorId, amount: u64)
        requires
            old(self).wf(),
        ensures
            final(self).wf(),
            final(self).balance_of(wallet) == amount,
            forall|w: ActorId|
                w != wallet ==> #[trigger] final(self).balance_of(w) == old(self).balance_of(w),
            final(self).posts() == old(self).posts(),
            final(self).comments() == old(self).comments(),
            final(self).post_voters() == old(self).post_voters(),
            final(self).comment_voters() == old(self).comment_voters(),
            final(self).profiles() == old(self).profiles(),
            final(self).next_post_id() == old(self).next_post_id(),
            final(self).next_comment_id() == old(self).next_comment_id(),
    {
        let ghost pre = *self;
        let i = match self.find_balance(wallet) {
            Some(i) => {
                self.vibes_balances[i] = (wallet, amount);
                i
            },
            None => {
                let n = self.vibes_balances.len();
                self.vibes_balances.push((wallet, amount));
                n
            },
        };
        proof {
            let bs = self.balances();
            assert(bs[i as int] == (wallet, amount));
            assert forall|a: int, b: int|
                0 <= a < b < bs.len() implies #[trigger] bs[a].0 != #[trigger] bs[b].0 by {
                if a != i && b != i {
                    assert(bs[a] == pre.balances()[a] && bs[b] == pre.balances()[b]);
                }
            }
            assert(self.balance_of(wallet) == amount);
            assert forall|x: ActorId| x != wallet implies #[trigger] self.balance_of(x)
                == pre.balance_of(x) by {
                if exists|k: int| 0 <= k < pre.balances().len() && pre.balances()[k].0 == x {
                    let k = choose|k: int| 0 <= k < pre.balances().len() && pre.balances()[k].0 == x;
                    assert(bs[k] == pre.balances()[k]);
                    let k1 = choose|k: int| 0 <= k < bs.len() && bs[k].0 == x;
                    assert(k1 == k);
                }
                if exists|k: int| 0 <= k < bs.len() && bs[k].0 == x {
                    let k = choose|k: int| 0 <= k < bs.len() && bs[k].0 == x;
                    assert(k != i);
                    assert(pre.balances()[k].0 == x);
                }
            }
        }
    }

    /// The profile of `wallet`, if it has one.
    pub fn profile(&self, wallet: ActorId) -> (r: Option<Profile>)
        requires
            self.wf(),
        ensures
            r == self.profile_of(wallet),
    {
        match self.find_profile(wallet) {
            Some(i) => {
                proof {
                    let k = choose|k: int|
                        0 <= k < self.profiles().len() && self.profiles()[k].wallet == wallet;
                    assert(k == i as int);
                }
                Some(self.profiles[i].duplicate())
            },
            None => None,
        }
    }

    /// The vibes balance of `wallet`; zero where it has none.
    pub fn balance(&self, wallet: ActorId) -> (r: u64)
        requires
            self.wf(),
        ensures
            r == self.balance_of(wallet),
    {
        match self.find_balance(wallet) {
            Some(i) => {
                proof {
                    let k = choose|k: int|
                        0 <= k < self.balances().len() && self.balances()[k].0 == wallet;
                    assert(k == i as int);
                }
                self.vibes_balances[i].1
            },
            None => 0,
        }
    }

    /// The profile of `wallet`, or a fresh one created at `now`.
    fn current_profile(&self, wallet: ActorId, now: u64) -> (r: Profile)
        requires
            self.wf(),
        ensures
            r == self.profile_or_fresh(wallet, now),
    {
        match self.profile(wallet) {
            Some(p) => p,
            None => Profile {
                wallet,
                username: None,
                social_handle: None,
                description: None,
                avatar_uri: None,
                created_at: now,
                total_posts: 0,
                total_vibes_earned: 0,
            },
        }
    }

    /// Credits `actor` with one more post and `reward` vibes, on its profile
    /// and its balance, creating either at `now` where it is missing.
    pub fn credit_author(&mut self, actor: ActorId, reward: u64, now: u64)
        requires
            old(self).wf(),
        ensures
            final(self).wf(),
            final(self).profile_of(actor) == Some(
                credited(old(self).profile_or_fresh(actor, now), reward),
            ),
            forall|w: ActorId|
                w != actor ==> #[trigger] final(self).profile_of(w) == old(self).profile_of(w),
            final(self).balance_of(actor) == sat_add(old(self).balance_of(actor), reward),
            forall|w: ActorId|
                w != actor ==> #[trigger] final(self).balance_of(w) == old(self).balance_of(w),
            final(self).posts() == old(self).posts(),
            final(self).comments() == old(self).comments(),
            final(self).post_voters() == old(self).post_voters(),
            final(self).comment_voters() == old(self).comment_voters(),
            final(self).next_post_id() == old(self).next_post_id(),
            final(self).next_comment_id() == old(self).next_comment_id(),
    {
        let current = self.current_profile(actor, now);
        let updated = Profile {
            total_posts: current.total_posts.saturating_add(1),
            total_vibes_earned: current.total_vibes_earned.saturating_add(reward),
            ..current
        };
        self.put_profile(updated);
        let ghost mid = *self;
        let held = self.balance(actor);
        self.put_balance(actor, held.saturating_add(reward));
        proof {
            assert forall|w: ActorId| #[trigger] self.profile_of(w) == mid.profile_of(w) by {
                assert(self.profiles() == mid.profiles());
            }
        }
    }

    /// Overwrites the given fields of `actor`'s profile, creating the profile
    /// at `now` where it is missing.
    pub fn set_profile_fields(
        &mut self,
        actor: ActorId,
        username: Option<String>,
        social_handle: Option<String>,
        description: Option<String>,
        avatar_uri: Option<String>,
        now: u64,
    )
        requires
            old(self).wf(),
        ensures
            final(self).wf(),
            final(self).profile_of(actor) == Some(
                with_fields(
                    old(self).profile_or_fresh(actor, now),
                    username,
                    social_handle,
                    description,
                    avatar_uri,
                ),
            ),
            forall|w: ActorId|
                w != actor ==> #[trigger] final(self).profile_of(w) == old(self).profile_of(w),
            forall|w: ActorId| #[trigger] final(self).balance_of(w) == old(self).balance_of(w),
            final(self).posts() == old(self).posts(),
            final(self).comments() == old(self).comments(),
            final(self).post_voters() == old(self).post_voters(),
            final(self).comment_voters() == old(self).comment_voters(),
            final(self).next_post_id() == old(self).next_post_id(),
            final(self).next_comment_id() == old(self).next_comment_id(),
    {
        let mut p = self.current_profile(actor, now);
        if let Some(u) = username {
            p.username = Some(u);
        }
        if let Some(h) = social_handle {
            p.social_handle = Some(h);
        }
        if let Some(d) = description {
            p.description = Some(d);
        }
        if let Some(a) = avatar_uri {
            p.avatar_uri = Some(a);
        }
        self.put_profile(p);
    }

    /// All posts, most recently created first.
    pub fn posts_newest_first(&self) -> (r: Vec<Post>)
        ensures
            r@.len() == self.posts().len(),
            forall|i: int|
                0 <= i < r@.len() ==> #[trigger] r@[i] == self.posts()[self.posts().len() - 1 - i],
    {
        let mut r: Vec<Post> = Vec::new();
        let mut i: usize = self.posts.len();
        while i > 0
            invariant
                i <= self.posts@.len(),
                r@.len() == self.posts@.len() - i,
                forall|k: int|
                    0 <= k < r@.len() ==> #[trigger] r@[k] == self.posts@[self.posts@.len() - 1 - k],
            decreases i,
        {
            i = i - 1;
            r.push(self.posts[i].duplicate());
        }
        r
    }

    /// The comments on post `post_id`, in order of creation.
    pub fn comments_of_post(&self, post_id: u64) -> (r: Vec<Comment>)
        ensures
            r@ == self.comments().filter(on_post(post_id)),
    {
        let mut r: Vec<Comment> = Vec::new();
        let mut i: usize = 0;
        while i < self.comments.len()
            invariant
                i <= self.comments@.len(),
                r@ == self.comments@.take(i as int).filter(on_post(post_id)),
            decreases self.comments@.len() - i,
        {
            proof {
                assert(self.comments@.take(i + 1) =~= self.comments@.take(i as int).push(
                    self.comments@[i as int],
                ));
                self.comments@.take(i as int).lemma_filter_push(
                    self.comments@[i as int],
                    on_post(post_id),
                );
            }
            if self.comments[i].post_id == post_id {
                r.push(self.comments[i].duplicate());
            }
            i = i + 1;
        }
        proof {
            assert(self.comments@.take(i as int) =~= self.comments@);
        }
        r
    }

    /// All comments, in order of creation.
    pub fn all_comments(&self) -> (r: Vec<Comment>)
        ensures
            r@ == self.comments(),
    {
        let mut r: Vec<Comment> = Vec::new();
        let mut i: usize = 0;
        while i < self.comments.len()
            invariant
                i <= self.comments@.len(),
                r@ == self.comments@.take(i as int),
            decreases self.comments@.len() - i,
        {
            r.push(self.comments[i].duplicate());
            proof {
                assert(r@ =~= self.comments@.take(i + 1));
            }
            i = i + 1;
        }
        proof {
            assert(self.comments@.take(i as int) =~= self.comments@);
        }
        r
    }
}

/// A post was created from `s0` to `s1` under id `id`: the id is the number
/// of posts before, and the new post is appended after all earlier ones.
pub open spec fn creates_post(s0: ForumState, s1: ForumState, id: u64) -> bool {
    &&& id as int == s0.posts().len()
    &&& s1.posts().len() == s0.posts().len() + 1
    &&& s1.posts().take(s0.posts().len() as int) == s0.posts()
    &&& s1.posts().last().id == id
}

/// A comment was created from `s0` to `s1` under id `id`: the id is the
/// number of comments before, and the new comment is appended after them.
pub open spec fn creates_comment(s0: ForumState, s1: ForumState, id: u64) -> bool {
    &&& id as int == s0.comments().len()
    &&& s1.comments().len() == s0.comments().len() + 1
    &&& s1.comments().last().id == id
}

/// Toggling the same identity's upvote on a post twice in a row gives back
/// the post as it was and the vote set as it was.
pub proof fn lemma_toggle_involution(
    s0: ForumState,
    s1: ForumState,
    s2: ForumState,
    p: u64,
    voter: ActorId,
    r1: (u32, bool),
    r2: (u32, bool),
)
    requires
        s0.wf(),
        s0.votes_agree(),
        s0.has_post(p),
        s0.post_voters()[p as int].contains(voter) || s0.posts()[p as int].upvotes < u32::MAX,
        post_vote_toggled(s0, s1, p, voter, r1),
        post_vote_toggled(s1, s2, p, voter, r2),
    ensures
        s2.posts() == s0.posts(),
        s2.post_votes() == s0.post_votes(),
        s2.post_voters()[p as int].to_set() == s0.post_voters()[p as int].to_set(),
        r2.1 == s0.post_voters()[p as int].contains(voter),
{
    let i = p as int;
    let v0 = s0.post_voters()[i];
    if v0.contains(voter) {
        assert(v0.len() > 0);
        assert(!s1.post_voters()[i].contains(voter)) by {
            if s1.post_voters()[i].contains(voter) {
                assert(s1.post_voters()[i].to_set().contains(voter));
            }
        }
        assert(s2.post_voters()[i].to_set() =~= v0.to_set());
    } else {
        assert(s1.post_voters()[i].to_set().contains(voter));
        assert(s1.post_voters()[i].contains(voter));
        assert(s2.post_voters()[i].to_set() =~= v0.to_set());
    }
    assert(s2.posts() =~= s0.posts());
    assert forall|e: (u64, ActorId)| s2.post_votes().contains(e) == s0.post_votes().contains(e) by {
        if e.0 < s0.post_voters().len() && e.0 as int != i {
            assert(s2.post_voters()[e.0 as int] == s0.post_voters()[e.0 as int]);
        }
        if e.0 as int == i {
            assert(s2.post_voters()[i].to_set().contains(e.1) == v0.to_set().contains(e.1));
        }
    }
    assert(s2.post_votes() =~= s0.post_votes());
}

/// Toggling the same identity's upvote on a comment twice in a row gives
/// back the comment as it was and the vote set as it was.
pub proof fn lemma_comment_toggle_involution(
    s0: ForumState,
    s1: ForumState,
    s2: ForumState,
    c: u64,
    voter: ActorId,
    r1: (u32, bool),
    r2: (u32, bool),
)
    requires
        s0.wf(),
        s0.votes_agree(),
        s0.has_comment(c),
        s0.comment_voters()[c as int].contains(voter) || s0.comments()[c as int].upvotes < u32::MAX,
        comment_vote_toggled(s0, s1, c, voter, r1),
        comment_vote_toggled(s1, s2, c, voter, r2),
    ensures
        s2.comments() == s0.comments(),
        s2.comment_votes() == s0.comment_votes(),
        s2.comment_voters()[c as int].to_set() == s0.comment_voters()[c as int].to_set(),
        r2.1 == s0.comment_voters()[c as int].contains(voter),
{
    let i = c as int;
    let v0 = s0.comment_voters()[i];
    if v0.contains(voter) {
        assert(v0.len() > 0);
        assert(!s1.comment_voters()[i].contains(voter)) by {
            if s1.comment_voters()[i].contains(voter) {
                assert(s1.comment_voters()[i].to_set().contains(voter));
            }
        }
        assert(s2.comment_voters()[i].to_set() =~= v0.to_set());
    } else {
        assert(s1.comment_voters()[i].to_set().contains(voter));
        assert(s1.comment_voters()[i].contains(voter));
        assert(s2.comment_voters()[i].to_set() =~= v0.to_set());
    }
    assert(s2.comments() =~= s0.comments());
    assert forall|e: (u64, ActorId)| s2.comment_votes().contains(e) == s0.comment_votes().contains(
        e,
    ) by {
        if e.0 < s0.comment_voters().len() && e.0 as int != i {
            assert(s2.comment_voters()[e.0 as int] == s0.comment_voters()[e.0 as int]);
        }
        if e.0 as int == i {
            assert(s2.comment_voters()[i].to_set().contains(e.1) == v0.to_set().contains(e.1));
        }
    }
    assert(s2.comment_votes() =~= s0.comment_votes());
}

/// Where every upvote counter agreed with its voters before a toggle that
/// does not run into the counter's ceiling, they all agree after it.
pub proof fn lemma_post_toggle_keeps_agreement(
    s0: ForumState,
    s1: ForumState,
    p: u64,
    voter: ActorId,
    r: (u32, bool),
)
    requires
        s0.wf(),
        s0.votes_agree(),
        s0.has_post(p),
        s0.post_voters()[p as int].contains(voter) || s0.post_voters()[p as int].len() < u32::MAX,
        post_vote_toggled(s0, s1, p, voter, r),
    ensures
        s1.votes_agree(),
{
    let i = p as int;
    if s0.post_voters()[i].contains(voter) {
        assert(s0.post_voters()[i].len() > 0);
    }
    assert forall|j: int| 0 <= j < s1.posts().len() implies #[trigger] s1.posts()[j].upvotes
        == s1.post_voters()[j].len() by {
        if j != i {
            assert(s1.posts()[j] == s0.posts()[j]);
        }
    }
}

/// The comment counterpart of `lemma_post_toggle_keeps_agreement`.
pub proof fn lemma_comment_toggle_keeps_agreement(
    s0: ForumState,
    s1: ForumState,
    c: u64,
    voter: ActorId,
    r: (u32, bool),
)
    requires
        s0.wf(),
        s0.votes_agree(),
        s0.has_comment(c),
        s0.comment_voters()[c as int].contains(voter) || s0.comment_voters()[c as int].len()
            < u32::MAX,
        comment_vote_toggled(s0, s1, c, voter, r),
    ensures
        s1.votes_agree(),
{
    let i = c as int;
    if s0.comment_voters()[i].contains(voter) {
        assert(s0.comment_voters()[i].len() > 0);
    }
    assert forall|j: int| 0 <= j < s1.comments().len() implies #[trigger] s1.comments()[j].upvotes
        == s1.comment_voters()[j].len() by {
        if j != i {
            assert(s1.comments()[j] == s0.comments()[j]);
        }
    }
}

/// In a well-formed store, while the counts fit a `u32`, each post's comment
/// counter equals its number of top-level comments, and each comment's reply
/// counter equals its number of replies.
pub proof fn lemma_comment_tree_agreement(s: ForumState)
    requires
        s.wf(),
    ensures
        forall|i: int|
            0 <= i < s.posts().len() && s.top_level_count(i as u64) <= u32::MAX ==> #[trigger] s.posts()[i].comment_count
                == s.top_level_count(i as u64),
        forall|i: int|
            0 <= i < s.comments().len() && s.reply_total(i as u64) <= u32::MAX ==> #[trigger] s.comments()[i].reply_count
                == s.reply_total(i as u64),
{
}

/// Every upvote counter equals the number of distinct identities that
/// upvote its item, that is the number of vote-set entries for it.
pub proof fn lemma_counters_match_vote_sets(s: ForumState)
    requires
        s.wf(),
        s.votes_agree(),
    ensures
        forall|i: int|
            0 <= i < s.posts().len() ==> #[trigger] s.posts()[i].upvotes as nat
                == s.post_voters()[i].to_set().len(),
        forall|i: int, v: ActorId|
            0 <= i < s.posts().len() ==> (#[trigger] s.post_voters()[i].to_set().contains(v)
                <==> s.post_votes().contains((i as u64, v))),
        forall|i: int|
            0 <= i < s.comments().len() ==> #[trigger] s.comments()[i].upvotes as nat
                == s.comment_voters()[i].to_set().len(),
        forall|i: int, v: ActorId|
            0 <= i < s.comments().len() ==> (#[trigger] s.comment_voters()[i].to_set().contains(v)
                <==> s.comment_votes().contains((i as u64, v))),
{
    assert forall|i: int| 0 <= i < s.posts().len() implies #[trigger] s.posts()[i].upvotes as nat
        == s.post_voters()[i].to_set().len() by {
        s.post_voters()[i].unique_seq_to_set();
    }
    assert forall|i: int| 0 <= i < s.comments().len() implies #[trigger] s.comments()[i].upvotes as nat
        == s.comment_voters()[i].to_set().len() by {
        s.comment_voters()[i].unique_seq_to_set();
    }
}

/// Two successive post creations hand out consecutive ids.
pub proof fn lemma_post_ids_consecutive(s0: ForumState, s1: ForumState, s2: ForumState, a: u64, b: u64)
    requires
        creates_post(s0, s1, a),
        creates_post(s1, s2, b),
    ensures
        b == a + 1,
{
}

/// Two successive comment creations hand out consecutive ids.
pub proof fn lemma_comment_ids_consecutive(
    s0: ForumState,
    s1: ForumState,
    s2: ForumState,
    a: u64,
    b: u64,
)
    requires
        creates_comment(s0, s1, a),
        creates_comment(s1, s2, b),
    ensures
        b == a + 1,
{
}

/// The ledger still agrees after a step that leaves the posts' authors and
/// times, the profiles and the balances as they were.
pub proof fn lemma_ledger_frame(s0: ForumState, s1: ForumState)
    requires
        s0.ledger_agrees(),
        s1.authorship() == s0.authorship(),
        s1.profiles() == s0.profiles(),
        s1.balances() == s0.balances(),
    ensures
        s1.ledger_agrees(),
{
    assert forall|w: ActorId| #[trigger] s1.profile_of(w) == s0.profile_of(w) by {}
    assert forall|w: ActorId| #[trigger] s1.balance_of(w) == s0.balance_of(w) by {}
}

/// The ledger still agrees after `actor` posts at `now` and is credited.
pub proof fn lemma_ledger_after_post(s0: ForumState, s1: ForumState, actor: ActorId, now: u64)
    requires
        s0.ledger_agrees(),
        s1.authorship() == s0.authorship().push((actor, now)),
        s1.profile_of(actor) == Some(credited(s0.profile_or_fresh(actor, now), vibes_reward(now))),
        forall|w: ActorId| w != actor ==> #[trigger] s1.profile_of(w) == s0.profile_of(w),
        s1.balance_of(actor) == sat_add(s0.balance_of(actor), vibes_reward(now)),
        forall|w: ActorId| w != actor ==> #[trigger] s1.balance_of(w) == s0.balance_of(w),
    ensures
        s1.ledger_agrees(),
{
    let e0 = s0.authorship();
    let e1 = s1.authorship();
    assert(e1.drop_last() =~= e0);
    assert forall|w: ActorId| #[trigger] posts_by(e1, w) == posts_by(e0, w) + (if w == actor {
        1nat
    } else {
        0nat
    }) && earned_by(e1, w) == earned_by(e0, w) + (if w == actor {
        vibes_reward(now) as nat
    } else {
        0nat
    }) by {}
    assert forall|w: ActorId| #[trigger] s1.profile_of(w) matches Some(p) ==> p.total_posts
        == capped(posts_by(e1, w)) && p.total_vibes_earned == capped64(earned_by(e1, w)) by {
        assert(posts_by(e1, w) == posts_by(e0, w) + (if w == actor { 1nat } else { 0nat }));
        assert(earned_by(e1, w) == earned_by(e0, w) + (if w == actor {
            vibes_reward(now) as nat
        } else {
            0nat
        }));
        if w == actor {
            if s0.profile_of(w) is None {
                assert(posts_by(e0, w) == 0);
                lemma_no_posts_no_earnings(e0, w);
            }
        }
    }
    assert forall|w: ActorId| posts_by(e1, w) > 0 implies (#[trigger] s1.profile_of(w)) is Some by {
        assert(posts_by(e1, w) == posts_by(e0, w) + (if w == actor { 1nat } else { 0nat }));
    }
    assert forall|w: ActorId| #[trigger] s1.balance_of(w) == capped64(earned_by(e1, w)) by {
        assert(earned_by(e1, w) == earned_by(e0, w) + (if w == actor {
            vibes_reward(now) as nat
        } else {
            0nat
        }));
        assert(s0.balance_of(w) == capped64(earned_by(e0, w)));
    }
}

/// The ledger still agrees after `actor` sets some profile fields.
pub proof fn lemma_ledger_after_profile_update(
    s0: ForumState,
    s1: ForumState,
    actor: ActorId,
    username: Option<String>,
    social_handle: Option<String>,
    description: Option<String>,
    avatar_uri: Option<String>,
    now: u64,
)
    requires
        s0.ledger_agrees(),
        s1.authorship() == s0.authorship(),
        s1.profile_of(actor) == Some(
            with_fields(
                s0.profile_or_fresh(actor, now),
                username,
                social_handle,
                description,
                avatar_uri,
            ),
        ),
        forall|w: ActorId| w != actor ==> #[trigger] s1.profile_of(w) == s0.profile_of(w),
        forall|w: ActorId| #[trigger] s1.balance_of(w) == s0.balance_of(w),
    ensures
        s1.ledger_agrees(),
{
    let e = s0.authorship();
    assert forall|w: ActorId| #[trigger] s1.profile_of(w) matches Some(p) ==> p.total_posts
        == capped(posts_by(e, w)) && p.total_vibes_earned == capped64(earned_by(e, w)) by {
        if w == actor && s0.profile_of(w) is None {
            assert(posts_by(e, w) == 0);
            lemma_no_posts_no_earnings(e, w);
        }
    }
    assert forall|w: ActorId| posts_by(e, w) > 0 implies (#[trigger] s1.profile_of(w)) is Some by {
        if w != actor {
            assert(s0.profile_of(w) is Some);
        }
    }
}

/// A wallet without posts has earned nothing.
pub proof fn lemma_no_posts_no_earnings(entries: Seq<(ActorId, u64)>, w: ActorId)
    requires
        posts_by(entries, w) == 0,
    ensures
        earned_by(entries, w) == 0,
    decreases entries.len(),
{
    if entries.len() > 0 {
        lemma_no_posts_no_earnings(entries.drop_last(), w);
    }
}

} // verus!
