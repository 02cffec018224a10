use solana_twitter::address::Address;
use solana_twitter::errors::ErrorCode;
use solana_twitter::size::char_count;
use solana_twitter::tweet::{delete_tweet, send_tweet, update_tweet, DeleteTweet, SendTweet, Tweet, UpdateTweet};

fn id(b: u8) -> Address {
    Address::new([b; 32])
}

fn post(tag: &str, content: &str) -> Tweet {
    send_tweet(&SendTweet { user: id(1) }, 1_700_000_000, tag.to_string(), content.to_string()).unwrap()
}

#[test]
fn create_post_is_not_edited() {
    let t = post("solana", "hello world");
    assert_eq!(t.user, id(1));
    assert_eq!(t.timestamp, 1_700_000_000);
    assert_eq!(t.tag, "solana");
    assert_eq!(t.content, "hello world");
    assert!(!t.edited);
}

#[test]
fn create_post_at_the_bounds() {
    let tag = "t".repeat(50);
    let content = "c".repeat(280);
    let t = post(&tag, &content);
    assert_eq!(t.tag.chars().count(), 50);
    assert_eq!(t.content.chars().count(), 280);
    assert!(!t.edited);
}

#[test]
fn create_post_counts_characters_not_bytes() {
    let content = "é".repeat(280);
    assert_eq!(content.len(), 560);
    let t = post("", &content);
    assert_eq!(t.content, content);
    let tag = "日".repeat(50);
    assert!(send_tweet(&SendTweet { user: id(1) }, 0, tag, "x".to_string()).is_ok());
}

#[test]
fn create_post_without_content() {
    let r = send_tweet(&SendTweet { user: id(1) }, 0, "solana".to_string(), String::new());
    assert_eq!(r, Err(ErrorCode::NoContent));
}

#[test]
fn create_post_with_long_tag() {
    let r = send_tweet(&SendTweet { user: id(1) }, 0, "a".repeat(51), "hello".to_string());
    assert_eq!(r, Err(ErrorCode::TagTooLong));
    let r = send_tweet(&SendTweet { user: id(1) }, 0, "a".repeat(51), "b".repeat(300));
    assert_eq!(r, Err(ErrorCode::TagTooLong));
}

#[test]
fn create_post_with_long_content() {
    let r = send_tweet(&SendTweet { user: id(1) }, 0, "solana".to_string(), "b".repeat(281));
    assert_eq!(r, Err(ErrorCode::ContentTooLong));
}

#[test]
fn update_post_scenario() {
    let t = post("solana", "hello world");
    assert!(!t.edited);
    assert_eq!(t.content, "hello world");
    let mut ctx = UpdateTweet { tweet: t, user: id(1) };
    let r = update_tweet(&mut ctx, "solana".to_string(), "hello world".to_string());
    assert_eq!(r, Err(ErrorCode::NothingChanged));
    assert!(!ctx.tweet.edited);
    let r = update_tweet(&mut ctx, "solana".to_string(), "hello there".to_string());
    assert_eq!(r, Ok(()));
    assert!(ctx.tweet.edited);
    assert_eq!(ctx.tweet.tag, "solana");
    assert_eq!(ctx.tweet.content, "hello there");
    assert_eq!(ctx.tweet.timestamp, 1_700_000_000);
    assert_eq!(ctx.tweet.user, id(1));
}

#[test]
fn update_post_unchanged_reports_nothing_changed_before_bounds() {
    let t = Tweet { user: id(1), timestamp: 5, tag: "x".repeat(60), content: "y".repeat(300), edited: false };
    let mut ctx = UpdateTweet { tweet: t.clone(), user: id(1) };
    let r = update_tweet(&mut ctx, "x".repeat(60), "y".repeat(300));
    assert_eq!(r, Err(ErrorCode::NothingChanged));
    assert_eq!(ctx.tweet, t);
}

#[test]
fn update_post_by_non_owner() {
    let t = post("solana", "hello world");
    let mut ctx = UpdateTweet { tweet: t.clone(), user: id(2) };
    let r = update_tweet(&mut ctx, "other".to_string(), "changed".to_string());
    assert_eq!(r, Err(ErrorCode::Unauthorized));
    assert_eq!(ctx.tweet, t);
}

#[test]
fn update_post_out_of_bounds() {
    let t = post("solana", "hello world");
    let mut ctx = UpdateTweet { tweet: t.clone(), user: id(1) };
    assert_eq!(update_tweet(&mut ctx, "a".repeat(51), "hello world".to_string()), Err(ErrorCode::TagTooLong));
    assert_eq!(update_tweet(&mut ctx, "solana".to_string(), "b".repeat(281)), Err(ErrorCode::ContentTooLong));
    assert_eq!(ctx.tweet, t);
}

#[test]
fn update_post_tag_only() {
    let t = post("solana", "hello world");
    let mut ctx = UpdateTweet { tweet: t, user: id(1) };
    assert_eq!(update_tweet(&mut ctx, "rust".to_string(), "hello world".to_string()), Ok(()));
    assert_eq!(ctx.tweet.tag, "rust");
    assert!(ctx.tweet.edited);
}

#[test]
fn update_post_method_directly() {
    let mut t = post("solana", "hello world");
    assert_eq!(t.update("solana".to_string(), "hello world".to_string()), Err(ErrorCode::NothingChanged));
    assert_eq!(t.update(String::new(), "bye".to_string()), Ok(()));
    assert_eq!(t.tag, "");
    assert!(t.edited);
}

#[test]
fn delete_post_by_owner_and_stranger() {
    let t = post("solana", "hello world");
    assert_eq!(delete_tweet(DeleteTweet { tweet: t.clone(), user: id(1) }), Ok(id(1)));
    assert_eq!(delete_tweet(DeleteTweet { tweet: t, user: id(3) }), Err(ErrorCode::Unauthorized));
}

#[test]
fn char_count_counts_scalars() {
    assert_eq!(char_count(&"héllo日".to_string()), 6);
    assert_eq!(char_count(&String::new()), 0);
}

#[test]
fn error_messages_are_not_empty() {
    for e in [
        ErrorCode::TagTooLong,
        ErrorCode::NoContent,
        ErrorCode::ContentTooLong,
        ErrorCode::NothingChanged,
        ErrorCode::InvalidVote,
        ErrorCode::AliasPresent,
        ErrorCode::AliasTooLong,
        ErrorCode::Unauthorized,
        ErrorCode::AddressMismatch,
    ] {
        assert!(!e.message().is_empty());
    }
    assert_eq!(ErrorCode::NothingChanged.message(), "Nothing that could be updated");
}
