use solana_twitter::address::Address;
use solana_twitter::alias::UserAlias;
use solana_twitter::codec::{
    decode_comment, decode_dm, decode_tweet, decode_user_alias, decode_voting, discriminator, encode_comment, encode_dm,
    encode_tweet, encode_user_alias, encode_voting,
};
use solana_twitter::comment::Comment;
use solana_twitter::dm::Dm;
use solana_twitter::size::{COMMENT_LEN, DM_LEN, TWEET_LEN, USER_ALIAS_LEN, VOTING_LEN};
use solana_twitter::tweet::Tweet;
use solana_twitter::voting::{Voting, VotingResult};

fn id(b: u8) -> Address {
    Address::new([b; 32])
}

#[test]
fn discriminators_are_digest_prefixes() {
    assert_eq!(discriminator("account:Tweet"), vec![229, 13, 110, 58, 118, 6, 20, 79]);
    assert_eq!(discriminator("account:Comment"), vec![150, 135, 96, 244, 55, 199, 50, 65]);
    assert_eq!(discriminator("account:Voting"), vec![69, 100, 149, 245, 199, 83, 2, 60]);
    assert_eq!(discriminator("account:Dm"), vec![166, 146, 27, 156, 153, 195, 142, 213]);
    assert_eq!(discriminator("account:UserAlias"), vec![237, 193, 7, 236, 218, 176, 162, 79]);
}

#[test]
fn capacities() {
    assert_eq!(TWEET_LEN, 1377);
    assert_eq!(COMMENT_LEN, 1237);
    assert_eq!(VOTING_LEN, 50);
    assert_eq!(DM_LEN, 1204);
    assert_eq!(USER_ALIAS_LEN, 213);
}

#[test]
fn voting_layout_is_exact() {
    let v = Voting { tweet: id(3), timestamp: -2, result: VotingResult::Dislike, bump: 254 };
    let bytes = encode_voting(&v);
    let mut expected = vec![69, 100, 149, 245, 199, 83, 2, 60];
    expected.extend_from_slice(&[3u8; 32]);
    expected.extend_from_slice(&[254, 255, 255, 255, 255, 255, 255, 255]);
    expected.push(2);
    expected.push(254);
    assert_eq!(bytes, expected);
    assert_eq!(bytes.len(), VOTING_LEN);
    assert_eq!(decode_voting(&bytes), Some(v));
}

#[test]
fn tweet_layout_is_exact() {
    let t = Tweet { user: id(1), timestamp: 258, tag: "é".to_string(), content: "hi".to_string(), edited: true };
    let bytes = encode_tweet(&t);
    let mut expected = vec![229, 13, 110, 58, 118, 6, 20, 79];
    expected.extend_from_slice(&[1u8; 32]);
    expected.extend_from_slice(&[2, 1, 0, 0, 0, 0, 0, 0]);
    expected.extend_from_slice(&[2, 0, 0, 0, 0xc3, 0xa9]);
    expected.extend_from_slice(&[2, 0, 0, 0, b'h', b'i']);
    expected.push(1);
    assert_eq!(bytes, expected);
}

#[test]
fn tweet_round_trip() {
    let t = Tweet { user: id(1), timestamp: i64::MIN, tag: "日".repeat(50), content: "🦀".repeat(280), edited: false };
    let mut bytes = encode_tweet(&t);
    assert!(bytes.len() <= TWEET_LEN);
    assert_eq!(decode_tweet(&bytes), Some(t.clone()));
    bytes.resize(TWEET_LEN, 0);
    assert_eq!(decode_tweet(&bytes), Some(t));
}

#[test]
fn comment_round_trip() {
    let c = Comment { user: id(1), tweet: id(2), parent: id(3), timestamp: 12, content: "reply".to_string(), edited: true };
    let bytes = encode_comment(&c);
    assert_eq!(&bytes[..8], &[150, 135, 96, 244, 55, 199, 50, 65]);
    assert!(bytes.len() <= COMMENT_LEN);
    assert_eq!(decode_comment(&bytes), Some(c));
}

#[test]
fn dm_round_trip() {
    let m = Dm { user: id(1), recipient: id(2), timestamp: i64::MAX, content: String::new() };
    let bytes = encode_dm(&m);
    assert!(bytes.len() <= DM_LEN);
    assert_eq!(decode_dm(&bytes), Some(m));
}

#[test]
fn user_alias_round_trip() {
    let u = UserAlias { alias: "alice".to_string(), bump: 251 };
    let bytes = encode_user_alias(&u);
    let mut expected = vec![237, 193, 7, 236, 218, 176, 162, 79, 5, 0, 0, 0];
    expected.extend_from_slice(b"alice");
    expected.push(251);
    assert_eq!(bytes, expected);
    assert!(bytes.len() <= USER_ALIAS_LEN);
    assert_eq!(decode_user_alias(&bytes), Some(u));
}

#[test]
fn decode_refuses_malformed_bytes() {
    let t = Tweet { user: id(1), timestamp: 1, tag: "a".to_string(), content: "b".to_string(), edited: false };
    let bytes = encode_tweet(&t);
    assert_eq!(decode_comment(&bytes), None);
    assert_eq!(decode_tweet(&bytes[..bytes.len() - 1]), None);
    let mut bad_flag = bytes.clone();
    *bad_flag.last_mut().unwrap() = 2;
    assert_eq!(decode_tweet(&bad_flag), None);
    let mut bad_utf8 = bytes.clone();
    bad_utf8[52] = 0xff;
    assert_eq!(decode_tweet(&bad_utf8), None);
    let mut bad_len = bytes.clone();
    bad_len[48] = 200;
    assert_eq!(decode_tweet(&bad_len), None);
    let v = Voting { tweet: id(3), timestamp: 0, result: VotingResult::Like, bump: 1 };
    let mut bad_result = encode_voting(&v);
    bad_result[48] = 3;
    assert_eq!(decode_voting(&bad_result), None);
    assert_eq!(decode_voting(&[]), None);
}
