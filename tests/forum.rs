use mini_reddit::content::{check_content, prepare_content, MAX_TEXT_LEN};
use mini_reddit::error::ForumError;
use mini_reddit::identity::{get_actor, ActionsForSession, ActorId, SessionData, SessionTable};
use mini_reddit::reward::calculate_vibes_reward;
use mini_reddit::service::MiniRedditService;

fn who(n: u128) -> ActorId {
    ActorId::new(0, n)
}

fn no_sessions() -> SessionTable {
    SessionTable::new()
}

fn one_session(account: ActorId, key: ActorId, expires: u64, allowed: Vec<ActionsForSession>) -> SessionTable {
    let mut t = SessionTable::new();
    t.insert(account, SessionData { key, expires, allowed_actions: allowed });
    t
}

fn all_actions() -> Vec<ActionsForSession> {
    vec![
        ActionsForSession::CreatePost,
        ActionsForSession::ToggleUpvote,
        ActionsForSession::CreateComment,
        ActionsForSession::ToggleCommentUpvote,
        ActionsForSession::UpdateProfile,
    ]
}

fn forum_with_post(author: ActorId) -> MiniRedditService {
    let mut f = MiniRedditService::new();
    let s = no_sessions();
    assert_eq!(f.create_post("hello".to_string(), None, None, &s, author, 1500), Ok((0, 1)));
    f
}

#[test]
fn create_post_returns_id_and_reward() {
    let mut f = MiniRedditService::new();
    let s = no_sessions();
    let a = who(1);
    assert_eq!(f.create_post("hello".to_string(), None, None, &s, a, 1500), Ok((0, 1)));
    let p = f.get_profile(a).unwrap();
    assert_eq!(p.total_posts, 1);
    assert_eq!(p.total_vibes_earned, 1);
    assert_eq!(p.created_at, 1500);
    assert_eq!(f.get_vibes_balance(a), 1);
    let posts = f.get_all_posts();
    assert_eq!(posts.len(), 1);
    assert_eq!(posts[0].id, 0);
    assert_eq!(posts[0].author, a);
    assert_eq!(posts[0].text, "hello");
    assert_eq!(posts[0].created_at, 1500);
    assert_eq!(posts[0].upvotes, 0);
    assert_eq!(posts[0].comment_count, 0);
}

#[test]
fn toggle_upvote_twice_returns_to_zero() {
    let mut f = forum_with_post(who(1));
    let s = no_sessions();
    let v = who(2);
    assert_eq!(f.toggle_upvote(0, None, &s, v, 1600), Ok((1, true)));
    assert_eq!(f.toggle_upvote(0, None, &s, v, 1700), Ok((0, false)));
    assert_eq!(f.get_all_posts()[0].upvotes, 0);
}

#[test]
fn comment_and_reply_update_counters() {
    let mut f = forum_with_post(who(1));
    let s = no_sessions();
    let c = who(3);
    assert_eq!(f.create_comment(0, None, "hi".to_string(), None, None, &s, c, 1600), Ok(0));
    assert_eq!(f.get_all_posts()[0].comment_count, 1);
    assert_eq!(
        f.create_comment(0, Some(0), "reply".to_string(), None, None, &s, c, 1700),
        Ok(1)
    );
    let comments = f.get_all_comments();
    assert_eq!(comments.len(), 2);
    assert_eq!(comments[0].reply_count, 1);
    assert_eq!(comments[1].parent_id, Some(0));
    assert_eq!(comments[1].reply_count, 0);
    assert_eq!(f.get_all_posts()[0].comment_count, 1);
}

#[test]
fn toggle_on_missing_post_is_not_found_and_changes_nothing() {
    let mut f = forum_with_post(who(1));
    let s = no_sessions();
    assert_eq!(f.toggle_upvote(999, None, &s, who(2), 1600), Err(ForumError::NotFound));
    let posts = f.get_all_posts();
    assert_eq!(posts.len(), 1);
    assert_eq!(posts[0].upvotes, 0);
    assert_eq!(f.get_vibes_balance(who(2)), 0);
    assert!(f.get_profile(who(2)).is_none());
    // the next toggle sees no earlier vote
    assert_eq!(f.toggle_upvote(0, None, &s, who(2), 1600), Ok((1, true)));
}

#[test]
fn toggle_twice_restores_count_with_other_voters() {
    let mut f = forum_with_post(who(1));
    let s = no_sessions();
    assert_eq!(f.toggle_upvote(0, None, &s, who(5), 1), Ok((1, true)));
    assert_eq!(f.toggle_upvote(0, None, &s, who(6), 1), Ok((2, true)));
    // a voter already present: removed, then added back
    assert_eq!(f.toggle_upvote(0, None, &s, who(5), 1), Ok((1, false)));
    assert_eq!(f.toggle_upvote(0, None, &s, who(5), 1), Ok((2, true)));
    assert_eq!(f.get_all_posts()[0].upvotes, 2);
}

#[test]
fn upvote_counter_counts_distinct_voters() {
    let mut f = forum_with_post(who(1));
    let s = no_sessions();
    for n in 10..15u128 {
        f.toggle_upvote(0, None, &s, who(n), 1).unwrap();
    }
    assert_eq!(f.get_all_posts()[0].upvotes, 5);
    f.toggle_upvote(0, None, &s, who(12), 1).unwrap();
    assert_eq!(f.get_all_posts()[0].upvotes, 4);
    assert_eq!(f.toggle_upvote(0, None, &s, who(12), 1), Ok((5, true)));
}

#[test]
fn comment_upvotes_toggle() {
    let mut f = forum_with_post(who(1));
    let s = no_sessions();
    f.create_comment(0, None, "c".to_string(), None, None, &s, who(1), 1).unwrap();
    assert_eq!(f.toggle_comment_upvote(0, None, &s, who(2), 1), Ok((1, true)));
    assert_eq!(f.toggle_comment_upvote(0, None, &s, who(3), 1), Ok((2, true)));
    assert_eq!(f.toggle_comment_upvote(0, None, &s, who(2), 1), Ok((1, false)));
    assert_eq!(f.get_all_comments()[0].upvotes, 1);
    assert_eq!(f.toggle_comment_upvote(7, None, &s, who(2), 1), Err(ForumError::NotFound));
}

#[test]
fn comment_tree_counts_match() {
    let mut f = forum_with_post(who(1));
    let s = no_sessions();
    f.create_post("second".to_string(), None, None, &s, who(1), 2).unwrap();
    f.create_comment(0, None, "a".to_string(), None, None, &s, who(2), 3).unwrap();
    f.create_comment(1, None, "b".to_string(), None, None, &s, who(2), 3).unwrap();
    f.create_comment(0, None, "c".to_string(), None, None, &s, who(2), 3).unwrap();
    f.create_comment(0, Some(0), "d".to_string(), None, None, &s, who(2), 3).unwrap();
    f.create_comment(0, Some(0), "e".to_string(), None, None, &s, who(2), 3).unwrap();
    f.create_comment(0, Some(3), "f".to_string(), None, None, &s, who(2), 3).unwrap();
    let posts = f.get_all_posts();
    // newest first: post 1, then post 0
    assert_eq!(posts[0].id, 1);
    assert_eq!(posts[0].comment_count, 1);
    assert_eq!(posts[1].id, 0);
    assert_eq!(posts[1].comment_count, 2);
    let comments = f.get_all_comments();
    assert_eq!(comments[0].reply_count, 2);
    assert_eq!(comments[1].reply_count, 0);
    assert_eq!(comments[3].reply_count, 1);
    let on_first = f.get_comments_for_post(0);
    let ids: Vec<u64> = on_first.iter().map(|c| c.id).collect();
    assert_eq!(ids, vec![0, 2, 3, 4, 5]);
    assert_eq!(f.get_comments_for_post(1).len(), 1);
    assert_eq!(f.get_comments_for_post(9).len(), 0);
}

#[test]
fn ids_are_consecutive_and_not_spent_on_failures() {
    let mut f = MiniRedditService::new();
    let s = no_sessions();
    assert_eq!(f.create_post("a".to_string(), None, None, &s, who(1), 1).map(|r| r.0), Ok(0));
    assert_eq!(f.create_post("   ".to_string(), None, None, &s, who(1), 1), Err(ForumError::EmptyContent));
    assert_eq!(f.create_post("b".to_string(), None, None, &s, who(1), 1).map(|r| r.0), Ok(1));
    assert_eq!(f.create_post("c".to_string(), None, None, &s, who(2), 1).map(|r| r.0), Ok(2));
    assert_eq!(f.create_comment(0, None, "x".to_string(), None, None, &s, who(1), 1), Ok(0));
    assert_eq!(f.create_comment(0, Some(5), "x".to_string(), None, None, &s, who(1), 1), Err(ForumError::ParentNotFound));
    assert_eq!(f.create_comment(2, None, "y".to_string(), None, None, &s, who(1), 1), Ok(1));
}

#[test]
fn expired_session_is_refused_without_change() {
    let account = who(10);
    let key = who(20);
    let s = one_session(account, key, 1000, all_actions());
    let mut f = forum_with_post(who(1));
    assert_eq!(f.toggle_upvote(0, Some(account), &s, key, 1000), Err(ForumError::SessionExpired));
    assert_eq!(f.get_all_posts()[0].upvotes, 0);
    assert_eq!(
        f.create_post("x".to_string(), None, Some(account), &s, key, 1500),
        Err(ForumError::SessionExpired)
    );
    assert_eq!(f.get_all_posts().len(), 1);
    assert_eq!(
        f.update_profile(Some("n".to_string()), None, None, None, Some(account), &s, key, 2000),
        Err(ForumError::SessionExpired)
    );
    assert!(f.get_profile(account).is_none());
}

#[test]
fn live_session_acts_for_the_account() {
    let account = who(10);
    let key = who(20);
    let s = one_session(account, key, 5000, all_actions());
    let mut f = forum_with_post(who(1));
    assert_eq!(f.toggle_upvote(0, Some(account), &s, key, 4999), Ok((1, true)));
    // the vote belongs to the account: toggling as the account itself removes it
    assert_eq!(f.toggle_upvote(0, None, &s, account, 4999), Ok((0, false)));
    assert_eq!(f.create_post("mine".to_string(), None, Some(account), &s, key, 2042), Ok((1, 43)));
    assert_eq!(f.get_all_posts()[0].author, account);
    assert_eq!(f.get_vibes_balance(account), 43);
    assert_eq!(f.get_vibes_balance(key), 0);
    assert!(f.get_profile(key).is_none());
}

#[test]
fn session_errors_in_order() {
    let account = who(10);
    let key = who(20);
    let s = one_session(account, key, 5000, vec![ActionsForSession::CreatePost]);
    assert_eq!(
        get_actor(&s, key, Some(who(11)), ActionsForSession::CreatePost, 1),
        Err(ForumError::NoSession)
    );
    assert_eq!(
        get_actor(&s, key, Some(account), ActionsForSession::ToggleUpvote, 1),
        Err(ForumError::ActionNotPermitted)
    );
    assert_eq!(
        get_actor(&s, who(21), Some(account), ActionsForSession::CreatePost, 1),
        Err(ForumError::KeyMismatch)
    );
    assert_eq!(
        get_actor(&s, who(21), Some(account), ActionsForSession::ToggleUpvote, 6000),
        Err(ForumError::SessionExpired)
    );
    assert_eq!(get_actor(&s, key, Some(account), ActionsForSession::CreatePost, 1), Ok(account));
    assert_eq!(get_actor(&s, key, None, ActionsForSession::CreatePost, 1), Ok(key));
}

#[test]
fn later_session_replaces_earlier() {
    let account = who(10);
    let mut s = one_session(account, who(20), 5000, all_actions());
    s.insert(account, SessionData { key: who(30), expires: 9000, allowed_actions: all_actions() });
    assert_eq!(
        get_actor(&s, who(20), Some(account), ActionsForSession::CreatePost, 1),
        Err(ForumError::KeyMismatch)
    );
    assert_eq!(get_actor(&s, who(30), Some(account), ActionsForSession::CreatePost, 1), Ok(account));
}

#[test]
fn content_rules() {
    let mut f = MiniRedditService::new();
    let s = no_sessions();
    assert_eq!(f.create_post("".to_string(), None, None, &s, who(1), 1), Err(ForumError::EmptyContent));
    assert_eq!(
        f.create_post(" \n\t ".to_string(), Some("img".to_string()), None, &s, who(1), 1),
        Ok((0, 2))
    );
    assert_eq!(f.get_all_posts()[0].text, "");
    assert_eq!(f.get_all_posts()[0].image_uri, Some("img".to_string()));
    let long = "a".repeat(501);
    assert_eq!(f.create_post(long, None, None, &s, who(1), 1), Err(ForumError::ContentTooLong));
    let exact = format!("  {}  ", "a".repeat(500));
    assert_eq!(f.create_post(exact, None, None, &s, who(1), 1).map(|r| r.0), Ok(1));
    // 250 two-byte characters fit; 251 do not
    assert_eq!(f.create_post("é".repeat(250), None, None, &s, who(1), 1).map(|r| r.0), Ok(2));
    assert_eq!(f.create_post("é".repeat(251), None, None, &s, who(1), 1), Err(ForumError::ContentTooLong));
    assert_eq!(
        f.create_comment(0, None, " ".to_string(), None, None, &s, who(1), 1),
        Err(ForumError::EmptyContent)
    );
    assert_eq!(
        f.create_comment(0, None, "b".repeat(501), None, None, &s, who(1), 1),
        Err(ForumError::ContentTooLong)
    );
    assert_eq!(
        f.create_comment(77, None, "ok".to_string(), None, None, &s, who(1), 1),
        Err(ForumError::NotFound)
    );
}

#[test]
fn text_is_trimmed_before_storing() {
    let mut f = MiniRedditService::new();
    let s = no_sessions();
    f.create_post("  hello world \n".to_string(), None, None, &s, who(1), 1).unwrap();
    assert_eq!(f.get_all_posts()[0].text, "hello world");
    f.create_comment(0, None, "\t hi ".to_string(), None, None, &s, who(1), 1).unwrap();
    assert_eq!(f.get_all_comments()[0].text, "hi");
    assert_eq!(prepare_content("  x  ", false, MAX_TEXT_LEN), Ok("x".to_string()));
    assert_eq!(prepare_content("   ", false, MAX_TEXT_LEN), Err(ForumError::EmptyContent));
    assert_eq!(check_content("abc", false, 2), Err(ForumError::ContentTooLong));
    assert_eq!(check_content("", true, 2), Ok(()));
}

#[test]
fn reward_formula() {
    assert_eq!(calculate_vibes_reward(1500), 1);
    assert_eq!(calculate_vibes_reward(0), 1);
    assert_eq!(calculate_vibes_reward(1234), 35);
    assert_eq!(calculate_vibes_reward(1999), 100);
    assert_eq!(calculate_vibes_reward(u64::MAX), 16);
}

#[test]
fn rewards_accumulate_on_profile_and_balance() {
    let mut f = MiniRedditService::new();
    let s = no_sessions();
    let a = who(1);
    f.create_post("a".to_string(), None, None, &s, a, 1010).unwrap();
    f.create_post("b".to_string(), None, None, &s, a, 1099).unwrap();
    let p = f.get_profile(a).unwrap();
    assert_eq!(p.total_posts, 2);
    assert_eq!(p.total_vibes_earned, 11 + 100);
    assert_eq!(p.created_at, 1010);
    assert_eq!(f.get_vibes_balance(a), 111);
    // comments earn nothing
    f.create_comment(0, None, "c".to_string(), None, None, &s, a, 1050).unwrap();
    assert_eq!(f.get_vibes_balance(a), 111);
}

#[test]
fn update_profile_sets_only_given_fields() {
    let mut f = MiniRedditService::new();
    let s = no_sessions();
    let a = who(1);
    assert_eq!(
        f.update_profile(Some("neo".to_string()), None, Some("hi".to_string()), None, None, &s, a, 77),
        Ok(())
    );
    let p = f.get_profile(a).unwrap();
    assert_eq!(p.wallet, a);
    assert_eq!(p.username, Some("neo".to_string()));
    assert_eq!(p.social_handle, None);
    assert_eq!(p.description, Some("hi".to_string()));
    assert_eq!(p.created_at, 77);
    assert_eq!(p.total_posts, 0);
    f.update_profile(None, Some("@neo".to_string()), None, Some("pic".to_string()), None, &s, a, 99).unwrap();
    let p = f.get_profile(a).unwrap();
    assert_eq!(p.username, Some("neo".to_string()));
    assert_eq!(p.social_handle, Some("@neo".to_string()));
    assert_eq!(p.avatar_uri, Some("pic".to_string()));
    assert_eq!(p.created_at, 77);
    // a later post keeps the fields and the creation time
    f.create_post("x".to_string(), None, None, &s, a, 1003).unwrap();
    let p = f.get_profile(a).unwrap();
    assert_eq!(p.total_posts, 1);
    assert_eq!(p.total_vibes_earned, 4);
    assert_eq!(p.username, Some("neo".to_string()));
    assert_eq!(p.created_at, 77);
    assert_eq!(f.get_vibes_balance(a), 4);
}

#[test]
fn empty_forum_queries() {
    let f = MiniRedditService::new();
    assert!(f.get_all_posts().is_empty());
    assert!(f.get_all_comments().is_empty());
    assert!(f.get_comments_for_post(0).is_empty());
    assert!(f.get_profile(who(1)).is_none());
    assert_eq!(f.get_vibes_balance(who(1)), 0);
}
