use mini_reddit::dispatch::{error_message, Action, Event};
use mini_reddit::error::ForumError;
use mini_reddit::identity::{ActionsForSession, ActorId, SessionData, SessionTable};
use mini_reddit::service::MiniRedditService;

fn who(n: u128) -> ActorId {
    ActorId::new(7, n)
}

fn post_created(ev: &Event) -> Option<(u64, u64)> {
    match ev {
        Event::PostCreated { post_id, vibes_earned } => Some((*post_id, *vibes_earned)),
        _ => None,
    }
}

fn error_of(ev: &Event) -> Option<String> {
    match ev {
        Event::Error { message } => Some(message.clone()),
        _ => None,
    }
}

#[test]
fn handle_routes_each_action() {
    let mut f = MiniRedditService::new();
    let s = SessionTable::new();
    let a = who(1);
    let ev = f.handle(Action::CreatePost { text: "hello".to_string(), image_uri: None }, None, &s, a, 1500);
    assert_eq!(post_created(&ev), Some((0, 1)));
    let ev = f.handle(Action::ToggleUpvote { post_id: 0 }, None, &s, who(2), 1501);
    assert!(matches!(ev, Event::UpvoteToggled { post_id: 0, upvotes: 1, is_upvoted: true }));
    let ev = f.handle(
        Action::CreateComment { post_id: 0, parent_id: None, text: "hi".to_string(), image_uri: None },
        None,
        &s,
        who(2),
        1502,
    );
    assert!(matches!(ev, Event::CommentCreated { comment_id: 0, post_id: 0, parent_id: None }));
    let ev = f.handle(Action::ToggleCommentUpvote { comment_id: 0 }, None, &s, a, 1503);
    assert!(matches!(ev, Event::CommentUpvoteToggled { comment_id: 0, upvotes: 1, is_upvoted: true }));
    let ev = f.handle(
        Action::UpdateProfile {
            username: Some("u".to_string()),
            social_handle: None,
            description: None,
            avatar_uri: None,
        },
        None,
        &s,
        a,
        1504,
    );
    match ev {
        Event::ProfileUpdated { wallet } => assert_eq!(wallet, a),
        other => panic!("unexpected event {:?}", other),
    }
    assert_eq!(f.get_profile(a).unwrap().username, Some("u".to_string()));
}

#[test]
fn handle_reports_refusals_as_errors() {
    let mut f = MiniRedditService::new();
    let s = SessionTable::new();
    let ev = f.handle(Action::ToggleUpvote { post_id: 3 }, None, &s, who(1), 1);
    assert_eq!(error_of(&ev), Some("Not found".to_string()));
    let ev = f.handle(Action::CreatePost { text: "  ".to_string(), image_uri: None }, None, &s, who(1), 1);
    assert_eq!(error_of(&ev), Some("Content must have text or image".to_string()));
    let ev = f.handle(Action::CreatePost { text: "x".to_string(), image_uri: None }, Some(who(9)), &s, who(1), 1);
    assert_eq!(error_of(&ev), Some("No valid session for this account".to_string()));
    assert!(f.get_all_posts().is_empty());
}

#[test]
fn handle_profile_update_through_session_names_the_account() {
    let mut f = MiniRedditService::new();
    let mut s = SessionTable::new();
    let account = who(10);
    let key = who(20);
    s.insert(
        account,
        SessionData { key, expires: 100, allowed_actions: vec![ActionsForSession::UpdateProfile] },
    );
    let upd = || Action::UpdateProfile {
        username: None,
        social_handle: Some("@a".to_string()),
        description: None,
        avatar_uri: None,
    };
    match f.handle(upd(), Some(account), &s, key, 50) {
        Event::ProfileUpdated { wallet } => assert_eq!(wallet, account),
        other => panic!("unexpected event {:?}", other),
    }
    assert_eq!(error_of(&f.handle(upd(), Some(account), &s, key, 100)), Some("Session expired".to_string()));
    assert_eq!(
        error_of(&f.handle(upd(), Some(account), &s, who(21), 50)),
        Some("Sender not authorized for session".to_string())
    );
    let ev = f.handle(Action::CreatePost { text: "x".to_string(), image_uri: None }, Some(account), &s, key, 50);
    assert_eq!(error_of(&ev), Some("Action not allowed".to_string()));
}

#[test]
fn error_messages_are_distinct() {
    let all = [
        ForumError::EmptyContent,
        ForumError::ContentTooLong,
        ForumError::NotFound,
        ForumError::ParentNotFound,
        ForumError::NoSession,
        ForumError::SessionExpired,
        ForumError::ActionNotPermitted,
        ForumError::KeyMismatch,
    ];
    let texts: Vec<String> = all.iter().map(|e| error_message(*e)).collect();
    for i in 0..texts.len() {
        assert!(!texts[i].is_empty());
        for j in 0..i {
            assert_ne!(texts[i], texts[j]);
        }
    }
    assert_eq!(error_message(ForumError::ParentNotFound), "Parent comment not found");
    assert_eq!(error_message(ForumError::ContentTooLong), "Content too long");
}
