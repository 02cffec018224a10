//! The byte layout in which records are stored: an 8-byte type
//! discriminator, then the fields in declaration order; an identity as 32
//! raw bytes, a timestamp as 8 little-endian bytes, a string as a 4-byte
//! little-endian byte count followed by its UTF-8 bytes, a flag, an enum or
//! a bump as one byte.
use crate::address::Address;
use crate::alias::{UserAlias, UserAliasView};
use crate::comment::{Comment, CommentView};
use crate::size::{COMMENT_LEN, DM_LEN, TWEET_LEN, USER_ALIAS_LEN, VOTING_LEN};
use crate::dm::{Dm, DmView};
use crate::tweet::{Tweet, TweetView};
use crate::voting::{Voting, VotingResult, VotingView};
use anchor_lang::solana_program::hash::hash;
use vstd::bytes::*;
use vstd::prelude::*;
use vstd::slice::*;
use vstd::string::*;
use vstd::utf8::*;

verus! {

broadcast use {encode_utf8_valid_utf8, encode_utf8_decode_utf8};

/// The SHA-256 digest of a byte sequence.
pub uninterp spec fn sha256_of(data: Seq<u8>) -> [u8; 32];

/// Relies on solana_program::hash::hash: the SHA-256 digest of the bytes,
/// which depends on the bytes alone.
#[verifier::external_body]
fn sha256(data: &[u8]) -> (r: [u8; 32])
    ensures
        r == sha256_of(data@),
{
    hash(data).to_bytes()
}

/// The discriminator of a record type: the first 8 bytes of the SHA-256
/// digest of its UTF-8 preimage (`account:` and the type's name).
pub open spec fn discriminator_of(preimage: Seq<char>) -> Seq<u8> {
    sha256_of(encode_utf8(preimage))@.subrange(0, 8)
}

/// Computes the discriminator of the record type with this preimage.
pub fn discriminator(preimage: &str) -> (r: Vec<u8>)
    ensures
        r@ == discriminator_of(preimage@),
{
    let digest = sha256(preimage.as_bytes());
    let mut r: Vec<u8> = Vec::new();
    let mut i: usize = 0;
    while i < 8
        invariant
            0 <= i <= 8,
            digest@.len() == 32,
            r@ == digest@.subrange(0, i as int),
        decreases 8 - i,
    {
        r.push(digest[i]);
        i = i + 1;
        proof {
            assert(r@ =~= digest@.subrange(0, i as int));
        }
    }
    r
}

/// A timestamp: 8 bytes, little-endian two's complement.
pub open spec fn i64_bytes(x: i64) -> Seq<u8> {
    spec_u64_to_le_bytes(x as u64)
}

/// A string: its UTF-8 byte count in 4 little-endian bytes, then the bytes.
pub open spec fn string_bytes(s: Seq<char>) -> Seq<u8> {
    spec_u32_to_le_bytes(encode_utf8(s).len() as u32) + encode_utf8(s)
}

/// A flag: one byte, 1 for true and 0 for false.
pub open spec fn bool_bytes(b: bool) -> Seq<u8> {
    seq![if b { 1u8 } else { 0u8 }]
}

/// Reads an identity at `pos`: the next 32 bytes.
pub open spec fn parse_address(b: Seq<u8>, pos: int) -> Option<(Seq<u8>, int)> {
    if 0 <= pos && pos + 32 <= b.len() {
        Some((b.subrange(pos, pos + 32), pos + 32))
    } else {
        None
    }
}

/// Reads a timestamp at `pos`.
pub open spec fn parse_i64(b: Seq<u8>, pos: int) -> Option<(i64, int)> {
    if 0 <= pos && pos + 8 <= b.len() {
        Some((spec_u64_from_le_bytes(b.subrange(pos, pos + 8)) as i64, pos + 8))
    } else {
        None
    }
}

/// Reads a string at `pos`: there must be as many bytes as the prefix
/// counts, and they must be valid UTF-8.
pub open spec fn parse_string(b: Seq<u8>, pos: int) -> Option<(Seq<char>, int)> {
    if 0 <= pos && pos + 4 <= b.len() {
        let end = pos + 4 + spec_u32_from_le_bytes(b.subrange(pos, pos + 4)) as int;
        if end <= b.len() && valid_utf8(b.subrange(pos + 4, end)) {
            Some((decode_utf8(b.subrange(pos + 4, end)), end))
        } else {
            None
        }
    } else {
        None
    }
}

/// Reads a flag at `pos`: a byte other than 0 or 1 is refused.
pub open spec fn parse_bool(b: Seq<u8>, pos: int) -> Option<(bool, int)> {
    if 0 <= pos && pos < b.len() && b[pos] <= 1 {
        Some((b[pos] == 1, pos + 1))
    } else {
        None
    }
}

/// Reads a single byte at `pos`.
pub open spec fn parse_u8(b: Seq<u8>, pos: int) -> Option<(u8, int)> {
    if 0 <= pos && pos < b.len() {
        Some((b[pos], pos + 1))
    } else {
        None
    }
}

/// A vote's result: one byte, the variant's index.
pub open spec fn result_bytes(r: VotingResult) -> Seq<u8> {
    seq![
        match r {
            VotingResult::Like => 0u8,
            VotingResult::NoVoting => 1u8,
            VotingResult::Dislike => 2u8,
        },
    ]
}

/// Reads a vote's result at `pos`: a byte above 2 is refused.
pub open spec fn parse_result(b: Seq<u8>, pos: int) -> Option<(VotingResult, int)> {
    if 0 <= pos && pos < b.len() && b[pos] <= 2 {
        Some(
            (
                if b[pos] == 0 {
                    VotingResult::Like
                } else if b[pos] == 1 {
                    VotingResult::NoVoting
                } else {
                    VotingResult::Dislike
                },
                pos + 1,
            ),
        )
    } else {
        None
    }
}

/// Whether `b` starts with the discriminator `d`.
pub open spec fn starts_with(b: Seq<u8>, d: Seq<u8>) -> bool {
    d.len() <= b.len() && b.subrange(0, d.len() as int) == d
}

/// A string of `n` characters takes at most `4 * n` bytes in UTF-8.
pub proof fn lemma_utf8_len_bound(s: Seq<char>)
    ensures
        encode_utf8(s).len() <= 4 * s.len(),
    decreases s.len(),
{
    if s.len() > 0 {
        lemma_utf8_len_bound(s.drop_first());
    }
}

proof fn lemma_parse_address(b: Seq<u8>, pos: int, a: Seq<u8>)
    requires
        a.len() == 32,
        0 <= pos,
        pos + 32 <= b.len(),
        b.subrange(pos, pos + 32) == a,
    ensures
        parse_address(b, pos) == Some((a, pos + 32)),
{
}

proof fn lemma_parse_i64(b: Seq<u8>, pos: int, x: i64)
    requires
        0 <= pos,
        pos + 8 <= b.len(),
        b.subrange(pos, pos + 8) == i64_bytes(x),
    ensures
        parse_i64(b, pos) == Some((x, pos + 8)),
{
    lemma_auto_spec_u64_to_from_le_bytes();
    let u = x as u64;
    assert(spec_u64_from_le_bytes(spec_u64_to_le_bytes(u)) == u);
    assert((u as i64) == x) by (bit_vector)
        requires
            u == x as u64,
    ;
}

proof fn lemma_parse_string(b: Seq<u8>, pos: int, s: Seq<char>)
    requires
        encode_utf8(s).len() <= u32::MAX,
        0 <= pos,
        pos + string_bytes(s).len() <= b.len(),
        b.subrange(pos, pos + string_bytes(s).len()) == string_bytes(s),
    ensures
        parse_string(b, pos) == Some((s, pos + string_bytes(s).len())),
{
    lemma_auto_spec_u32_to_from_le_bytes();
    let n = encode_utf8(s).len() as u32;
    let enc = spec_u32_to_le_bytes(n);
    assert(enc.len() == 4);
    let whole = b.subrange(pos, pos + string_bytes(s).len());
    assert(b.subrange(pos, pos + 4) =~= whole.subrange(0, 4));
    assert(whole.subrange(0, 4) =~= enc);
    assert(spec_u32_from_le_bytes(enc) == n);
    let end = pos + 4 + n as int;
    assert(b.subrange(pos + 4, end) =~= whole.subrange(4, 4 + n as int));
    assert(whole.subrange(4, 4 + n as int) =~= encode_utf8(s));
}

proof fn lemma_parse_bool(b: Seq<u8>, pos: int, x: bool)
    requires
        0 <= pos,
        pos + 1 <= b.len(),
        b.subrange(pos, pos + 1) == bool_bytes(x),
    ensures
        parse_bool(b, pos) == Some((x, pos + 1)),
{
    assert(b[pos] == b.subrange(pos, pos + 1)[0]);
}

proof fn lemma_parse_u8(b: Seq<u8>, pos: int, x: u8)
    requires
        0 <= pos,
        pos + 1 <= b.len(),
        b.subrange(pos, pos + 1) == seq![x],
    ensures
        parse_u8(b, pos) == Some((x, pos + 1)),
{
    assert(b[pos] == b.subrange(pos, pos + 1)[0]);
}

proof fn lemma_parse_result(b: Seq<u8>, pos: int, x: VotingResult)
    requires
        0 <= pos,
        pos + 1 <= b.len(),
        b.subrange(pos, pos + 1) == result_bytes(x),
    ensures
        parse_result(b, pos) == Some((x, pos + 1)),
{
    assert(b[pos] == b.subrange(pos, pos + 1)[0]);
}

/// Appends `b` to `out`.
fn append_bytes(out: &mut Vec<u8>, b: &[u8])
    ensures
        final(out)@ == old(out)@ + b@,
{
    let mut i: usize = 0;
    while i < b.len()
        invariant
            0 <= i <= b@.len(),
            out@ == old(out)@ + b@.subrange(0, i as int),
        decreases b@.len() - i,
    {
        out.push(b[i]);
        i = i + 1;
        proof {
            assert(out@ =~= old(out)@ + b@.subrange(0, i as int));
        }
    }
    proof {
        assert(b@.subrange(0, b@.len() as int) =~= b@);
    }
}

/// Appends an identity.
fn write_address(out: &mut Vec<u8>, a: &Address)
    ensures
        final(out)@ == old(out)@ + a@,
{
    append_bytes(out, a.bytes.as_slice());
}

/// Appends a timestamp.
fn write_i64(out: &mut Vec<u8>, x: i64)
    ensures
        final(out)@ == old(out)@ + i64_bytes(x),
{
    let b = u64_to_le_bytes(x as u64);
    append_bytes(out, b.as_slice());
}

/// Appends a string of at most `u32::MAX` UTF-8 bytes.
fn write_string(out: &mut Vec<u8>, s: &String)
    requires
        encode_utf8(s@).len() <= u32::MAX,
    ensures
        final(out)@ == old(out)@ + string_bytes(s@),
{
    let bytes = s.as_str().as_bytes();
    let n = u32_to_le_bytes(bytes.len() as u32);
    append_bytes(out, n.as_slice());
    append_bytes(out, bytes);
    proof {
        assert(final(out)@ =~= old(out)@ + string_bytes(s@));
    }
}

/// Appends a flag.
fn write_bool(out: &mut Vec<u8>, x: bool)
    ensures
        final(out)@ == old(out)@ + bool_bytes(x),
{
    out.push(if x { 1u8 } else { 0u8 });
    proof {
        assert(final(out)@ =~= old(out)@ + bool_bytes(x));
    }
}

/// Appends a vote's result.
fn write_result(out: &mut Vec<u8>, x: VotingResult)
    ensures
        final(out)@ == old(out)@ + result_bytes(x),
{
    let byte: u8 = match x {
        VotingResult::Like => 0,
        VotingResult::NoVoting => 1,
        VotingResult::Dislike => 2,
    };
    out.push(byte);
    proof {
        assert(final(out)@ =~= old(out)@ + result_bytes(x));
    }
}

/// Appends a byte.
fn write_u8(out: &mut Vec<u8>, x: u8)
    ensures
        final(out)@ == old(out)@ + seq![x],
{
    out.push(x);
    proof {
        assert(final(out)@ =~= old(out)@ + seq![x]);
    }
}

/// Reads a vote's result at `pos`.
fn read_result(b: &[u8], pos: usize) -> (r: Option<(VotingResult, usize)>)
    ensures
        match r {
            Some((x, p)) => parse_result(b@, pos as int) == Some((x, p as int)),
            None => parse_result(b@, pos as int) is None,
        },
{
    if pos >= b.len() || b[pos] > 2 {
        return None;
    }
    let x = if b[pos] == 0 {
        VotingResult::Like
    } else if b[pos] == 1 {
        VotingResult::NoVoting
    } else {
        VotingResult::Dislike
    };
    Some((x, pos + 1))
}

/// Reads an identity at `pos`.
fn read_address(b: &[u8], pos: usize) -> (r: Option<(Address, usize)>)
    ensures
        match r {
            Some((a, p)) => parse_address(b@, pos as int) == Some((a@, p as int)),
            None => parse_address(b@, pos as int) is None,
        },
{
    if pos > b.len() || b.len() - pos < 32 {
        return None;
    }
    let mut bytes = [0u8; 32];
    let mut i: usize = 0;
    while i < 32
        invariant
            0 <= i <= 32,
            pos + 32 <= b.len(),
            bytes@.len() == 32,
            forall|j: int| 0 <= j < i ==> bytes@[j] == b@[pos + j],
        decreases 32 - i,
    {
        bytes[i] = b[pos + i];
        i = i + 1;
    }
    proof {
        assert(bytes@ =~= b@.subrange(pos as int, pos + 32));
    }
    Some((Address { bytes }, pos + 32))
}

/// Reads a timestamp at `pos`.
fn read_i64(b: &[u8], pos: usize) -> (r: Option<(i64, usize)>)
    ensures
        match r {
            Some((x, p)) => parse_i64(b@, pos as int) == Some((x, p as int)),
            None => parse_i64(b@, pos as int) is None,
        },
{
    if pos > b.len() || b.len() - pos < 8 {
        return None;
    }
    let u = u64_from_le_bytes(slice_subrange(b, pos, pos + 8));
    Some((u as i64, pos + 8))
}

/// Relies on String::from_utf8: it accepts exactly the valid UTF-8 byte
/// sequences and then holds the characters they encode.
#[verifier::external_body]
fn string_from_utf8(bytes: Vec<u8>) -> (r: Option<String>)
    ensures
        match r {
            Some(s) => valid_utf8(bytes@) && s@ == decode_utf8(bytes@),
            None => !valid_utf8(bytes@),
        },
{
    String::from_utf8(bytes).ok()
}

/// Reads a string at `pos`.
fn read_string(b: &[u8], pos: usize) -> (r: Option<(String, usize)>)
    ensures
        match r {
            Some((s, p)) => parse_string(b@, pos as int) == Some((s@, p as int)),
            None => parse_string(b@, pos as int) is None,
        },
{
    if pos > b.len() || b.len() - pos < 4 {
        return None;
    }
    let n = u32_from_le_bytes(slice_subrange(b, pos, pos + 4)) as usize;
    if b.len() - (pos + 4) < n {
        return None;
    }
    let end = pos + 4 + n;
    let bytes = slice_to_vec(slice_subrange(b, pos + 4, end));
    match string_from_utf8(bytes) {
        Some(s) => Some((s, end)),
        None => None,
    }
}

/// Reads a flag at `pos`.
fn read_bool(b: &[u8], pos: usize) -> (r: Option<(bool, usize)>)
    ensures
        match r {
            Some((x, p)) => parse_bool(b@, pos as int) == Some((x, p as int)),
            None => parse_bool(b@, pos as int) is None,
        },
{
    if pos >= b.len() || b[pos] > 1 {
        return None;
    }
    Some((b[pos] == 1, pos + 1))
}

/// Reads a byte at `pos`.
fn read_u8(b: &[u8], pos: usize) -> (r: Option<(u8, usize)>)
    ensures
        match r {
            Some((x, p)) => parse_u8(b@, pos as int) == Some((x, p as int)),
            None => parse_u8(b@, pos as int) is None,
        },
{
    if pos >= b.len() {
        return None;
    }
    Some((b[pos], pos + 1))
}

/// Whether `b` starts with the discriminator `d`.
fn read_discriminator(b: &[u8], d: &Vec<u8>) -> (r: bool)
    ensures
        r == starts_with(b@, d@),
{
    if d.len() > b.len() {
        return false;
    }
    let mut i: usize = 0;
    while i < d.len()
        invariant
            0 <= i <= d@.len(),
            d@.len() <= b@.len(),
            forall|j: int| 0 <= j < i ==> b@[j] == d@[j],
        decreases d@.len() - i,
    {
        if b[i] != d[i] {
            proof {
                assert(b@.subrange(0, d@.len() as int)[i as int] != d@[i as int]);
            }
            return false;
        }
        i = i + 1;
    }
    proof {
        assert(b@.subrange(0, d@.len() as int) =~= d@);
    }
    true
}

/// The discriminator of a post.
pub open spec fn tweet_discriminator() -> Seq<u8> {
    discriminator_of("account:Tweet"@)
}

/// The stored bytes of a post.
pub open spec fn tweet_bytes(t: TweetView) -> Seq<u8> {
    tweet_discriminator() + t.user + i64_bytes(t.timestamp) + string_bytes(t.tag) + string_bytes(
        t.content,
    ) + bool_bytes(t.edited)
}

/// The post that bytes starting with a post's layout hold; what follows is
/// ignored.
pub open spec fn parse_tweet(b: Seq<u8>) -> Option<TweetView> {
    if !starts_with(b, tweet_discriminator()) {
        None
    } else {
        match parse_address(b, 8) {
            None => None,
            Some((user, p)) => match parse_i64(b, p) {
                None => None,
                Some((timestamp, p)) => match parse_string(b, p) {
                    None => None,
                    Some((tag, p)) => match parse_string(b, p) {
                        None => None,
                        Some((content, p)) => match parse_bool(b, p) {
                            None => None,
                            Some((edited, _)) => Some(
                                TweetView { user, timestamp, tag, content, edited },
                            ),
                        },
                    },
                },
            },
        }
    }
}

/// Encodes a post.
pub fn encode_tweet(t: &Tweet) -> (r: Vec<u8>)
    requires
        t.wf(),
    ensures
        r@ == tweet_bytes(t@),
{
    proof {
        lemma_utf8_len_bound(t.tag@);
        lemma_utf8_len_bound(t.content@);
    }
    let mut out = discriminator("account:Tweet");
    write_address(&mut out, &t.user);
    write_i64(&mut out, t.timestamp);
    write_string(&mut out, &t.tag);
    write_string(&mut out, &t.content);
    write_bool(&mut out, t.edited);
    out
}

/// Decodes a post from the start of `b`.
pub fn decode_tweet(b: &[u8]) -> (r: Option<Tweet>)
    ensures
        match r {
            Some(t) => parse_tweet(b@) == Some(t@),
            None => parse_tweet(b@) is None,
        },
{
    let d = discriminator("account:Tweet");
    if !read_discriminator(b, &d) {
        return None;
    }
    let (user, p) = match read_address(b, 8) {
        Some(x) => x,
        None => return None,
    };
    let (timestamp, p) = match read_i64(b, p) {
        Some(x) => x,
        None => return None,
    };
    let (tag, p) = match read_string(b, p) {
        Some(x) => x,
        None => return None,
    };
    let (content, p) = match read_string(b, p) {
        Some(x) => x,
        None => return None,
    };
    let (edited, _) = match read_bool(b, p) {
        Some(x) => x,
        None => return None,
    };
    Some(Tweet { user, timestamp, tag, content, edited })
}

/// Decoding the bytes of a post within its bounds, whatever follows them,
/// gives back that post.
pub proof fn lemma_tweet_round_trip(t: TweetView, rest: Seq<u8>)
    requires
        t.user.len() == 32,
        t.wf(),
    ensures
        parse_tweet(tweet_bytes(t) + rest) == Some(t),
{
    lemma_utf8_len_bound(t.tag);
    lemma_utf8_len_bound(t.content);
    let b = tweet_bytes(t) + rest;
    let d = tweet_discriminator();
    let p1 = 8int;
    let p2 = p1 + 32;
    let p3 = p2 + 8;
    let p4 = p3 + string_bytes(t.tag).len();
    let p5 = p4 + string_bytes(t.content).len();
    lemma_auto_spec_u64_to_from_le_bytes();
    lemma_auto_spec_u32_to_from_le_bytes();
    assert(d.len() == 8);
    assert(i64_bytes(t.timestamp).len() == 8);
    assert(b.subrange(0, 8) =~= d);
    assert(b.subrange(p1, p2) =~= t.user);
    lemma_parse_address(b, p1, t.user);
    assert(b.subrange(p2, p3) =~= i64_bytes(t.timestamp));
    lemma_parse_i64(b, p2, t.timestamp);
    assert(b.subrange(p3, p4) =~= string_bytes(t.tag));
    lemma_parse_string(b, p3, t.tag);
    assert(b.subrange(p4, p5) =~= string_bytes(t.content));
    lemma_parse_string(b, p4, t.content);
    assert(b.subrange(p5, p5 + 1) =~= bool_bytes(t.edited));
    lemma_parse_bool(b, p5, t.edited);
}

/// The discriminator of a comment.
pub open spec fn comment_discriminator() -> Seq<u8> {
    discriminator_of("account:Comment"@)
}

/// The stored bytes of a comment.
pub open spec fn comment_bytes(c: CommentView) -> Seq<u8> {
    comment_discriminator() + c.user + c.tweet + c.parent + i64_bytes(c.timestamp) + string_bytes(
        c.content,
    ) + bool_bytes(c.edited)
}

/// The comment that bytes starting with a comment's layout hold.
pub open spec fn parse_comment(b: Seq<u8>) -> Option<CommentView> {
    if !starts_with(b, comment_discriminator()) {
        None
    } else {
        match parse_address(b, 8) {
            None => None,
            Some((user, p)) => match parse_address(b, p) {
                None => None,
                Some((tweet, p)) => match parse_address(b, p) {
                    None => None,
                    Some((parent, p)) => match parse_i64(b, p) {
                        None => None,
                        Some((timestamp, p)) => match parse_string(b, p) {
                            None => None,
                            Some((content, p)) => match parse_bool(b, p) {
                                None => None,
                                Some((edited, _)) => Some(
                                    CommentView { user, tweet, parent, timestamp, content, edited },
                                ),
                            },
                        },
                    },
                },
            },
        }
    }
}

/// Encodes a comment.
pub fn encode_comment(c: &Comment) -> (r: Vec<u8>)
    requires
        c.wf(),
    ensures
        r@ == comment_bytes(c@),
{
    proof {
        lemma_utf8_len_bound(c.content@);
    }
    let mut out = discriminator("account:Comment");
    write_address(&mut out, &c.user);
    write_address(&mut out, &c.tweet);
    write_address(&mut out, &c.parent);
    write_i64(&mut out, c.timestamp);
    write_string(&mut out, &c.content);
    write_bool(&mut out, c.edited);
    out
}

/// Decodes a comment from the start of `b`.
pub fn decode_comment(b: &[u8]) -> (r: Option<Comment>)
    ensures
        match r {
            Some(c) => parse_comment(b@) == Some(c@),
            None => parse_comment(b@) is None,
        },
{
    let d = discriminator("account:Comment");
    if !read_discriminator(b, &d) {
        return None;
    }
    let (user, p) = match read_address(b, 8) {
        Some(x) => x,
        None => return None,
    };
    let (tweet, p) = match read_address(b, p) {
        Some(x) => x,
        None => return None,
    };
    let (parent, p) = match read_address(b, p) {
        Some(x) => x,
        None => return None,
    };
    let (timestamp, p) = match read_i64(b, p) {
        Some(x) => x,
        None => return None,
    };
    let (content, p) = match read_string(b, p) {
        Some(x) => x,
        None => return None,
    };
    let (edited, _) = match read_bool(b, p) {
        Some(x) => x,
        None => return None,
    };
    Some(Comment { user, tweet, parent, timestamp, content, edited })
}

/// Decoding the bytes of a comment within its bound, whatever follows them,
/// gives back that comment.
pub proof fn lemma_comment_round_trip(c: CommentView, rest: Seq<u8>)
    requires
        c.user.len() == 32,
        c.tweet.len() == 32,
        c.parent.len() == 32,
        c.wf(),
    ensures
        parse_comment(comment_bytes(c) + rest) == Some(c),
{
    lemma_utf8_len_bound(c.content);
    let b = comment_bytes(c) + rest;
    let d = comment_discriminator();
    let p1 = 8int;
    let p2 = p1 + 32;
    let p3 = p2 + 32;
    let p4 = p3 + 32;
    let p5 = p4 + 8;
    let p6 = p5 + string_bytes(c.content).len();
    lemma_auto_spec_u64_to_from_le_bytes();
    lemma_auto_spec_u32_to_from_le_bytes();
    assert(d.len() == 8);
    assert(i64_bytes(c.timestamp).len() == 8);
    assert(b.subrange(0, 8) =~= d);
    assert(b.subrange(p1, p2) =~= c.user);
    lemma_parse_address(b, p1, c.user);
    assert(b.subrange(p2, p3) =~= c.tweet);
    lemma_parse_address(b, p2, c.tweet);
    assert(b.subrange(p3, p4) =~= c.parent);
    lemma_parse_address(b, p3, c.parent);
    assert(b.subrange(p4, p5) =~= i64_bytes(c.timestamp));
    lemma_parse_i64(b, p4, c.timestamp);
    assert(b.subrange(p5, p6) =~= string_bytes(c.content));
    lemma_parse_string(b, p5, c.content);
    assert(b.subrange(p6, p6 + 1) =~= bool_bytes(c.edited));
    lemma_parse_bool(b, p6, c.edited);
}

/// The discriminator of a vote.
pub open spec fn voting_discriminator() -> Seq<u8> {
    discriminator_of("account:Voting"@)
}

/// The stored bytes of a vote.
pub open spec fn voting_bytes(v: VotingView) -> Seq<u8> {
    voting_discriminator() + v.tweet + i64_bytes(v.timestamp) + result_bytes(v.result) + seq![v.bump]
}

/// The vote that bytes starting with a vote's layout hold.
pub open spec fn parse_voting(b: Seq<u8>) -> Option<VotingView> {
    if !starts_with(b, voting_discriminator()) {
        None
    } else {
        match parse_address(b, 8) {
            None => None,
            Some((tweet, p)) => match parse_i64(b, p) {
                None => None,
                Some((timestamp, p)) => match parse_result(b, p) {
                    None => None,
                    Some((result, p)) => match parse_u8(b, p) {
                        None => None,
                        Some((bump, _)) => Some(VotingView { tweet, timestamp, result, bump }),
                    },
                },
            },
        }
    }
}

/// Encodes a vote.
pub fn encode_voting(v: &Voting) -> (r: Vec<u8>)
    ensures
        r@ == voting_bytes(v@),
{
    let mut out = discriminator("account:Voting");
    write_address(&mut out, &v.tweet);
    write_i64(&mut out, v.timestamp);
    write_result(&mut out, v.result);
    write_u8(&mut out, v.bump);
    out
}

/// Decodes a vote from the start of `b`.
pub fn decode_voting(b: &[u8]) -> (r: Option<Voting>)
    ensures
        match r {
            Some(v) => parse_voting(b@) == Some(v@),
            None => parse_voting(b@) is None,
        },
{
    let d = discriminator("account:Voting");
    if !read_discriminator(b, &d) {
        return None;
    }
    let (tweet, p) = match read_address(b, 8) {
        Some(x) => x,
        None => return None,
    };
    let (timestamp, p) = match read_i64(b, p) {
        Some(x) => x,
        None => return None,
    };
    let (result, p) = match read_result(b, p) {
        Some(x) => x,
        None => return None,
    };
    let (bump, _) = match read_u8(b, p) {
        Some(x) => x,
        None => return None,
    };
    Some(Voting { tweet, timestamp, result, bump })
}

/// Decoding the bytes of a vote, whatever follows them, gives back that
/// vote.
pub proof fn lemma_voting_round_trip(v: VotingView, rest: Seq<u8>)
    requires
        v.tweet.len() == 32,
    ensures
        parse_voting(voting_bytes(v) + rest) == Some(v),
{
    let b = voting_bytes(v) + rest;
    let d = voting_discriminator();
    let p1 = 8int;
    let p2 = p1 + 32;
    let p3 = p2 + 8;
    let p4 = p3 + 1;
    lemma_auto_spec_u64_to_from_le_bytes();
    assert(d.len() == 8);
    assert(i64_bytes(v.timestamp).len() == 8);
    assert(b.subrange(0, 8) =~= d);
    assert(b.subrange(p1, p2) =~= v.tweet);
    lemma_parse_address(b, p1, v.tweet);
    assert(b.subrange(p2, p3) =~= i64_bytes(v.timestamp));
    lemma_parse_i64(b, p2, v.timestamp);
    assert(b.subrange(p3, p4) =~= result_bytes(v.result));
    lemma_parse_result(b, p3, v.result);
    assert(b.subrange(p4, p4 + 1) =~= seq![v.bump]);
    lemma_parse_u8(b, p4, v.bump);
}

/// The discriminator of a direct message.
pub open spec fn dm_discriminator() -> Seq<u8> {
    discriminator_of("account:Dm"@)
}

/// The stored bytes of a direct message.
pub open spec fn dm_bytes(m: DmView) -> Seq<u8> {
    dm_discriminator() + m.user + m.recipient + i64_bytes(m.timestamp) + string_bytes(m.content)
}

/// The message that bytes starting with a message's layout hold.
pub open spec fn parse_dm(b: Seq<u8>) -> Option<DmView> {
    if !starts_with(b, dm_discriminator()) {
        None
    } else {
        match parse_address(b, 8) {
            None => None,
            Some((user, p)) => match parse_address(b, p) {
                None => None,
                Some((recipient, p)) => match parse_i64(b, p) {
                    None => None,
                    Some((timestamp, p)) => match parse_string(b, p) {
                        None => None,
                        Some((content, _)) => Some(DmView { user, recipient, timestamp, content }),
                    },
                },
            },
        }
    }
}

/// Encodes a direct message.
pub fn encode_dm(m: &Dm) -> (r: Vec<u8>)
    requires
        m.wf(),
    ensures
        r@ == dm_bytes(m@),
{
    proof {
        lemma_utf8_len_bound(m.content@);
    }
    let mut out = discriminator("account:Dm");
    write_address(&mut out, &m.user);
    write_address(&mut out, &m.recipient);
    write_i64(&mut out, m.timestamp);
    write_string(&mut out, &m.content);
    out
}

/// Decodes a direct message from the start of `b`.
pub fn decode_dm(b: &[u8]) -> (r: Option<Dm>)
    ensures
        match r {
            Some(m) => parse_dm(b@) == Some(m@),
            None => parse_dm(b@) is None,
        },
{
    let d = discriminator("account:Dm");
    if !read_discriminator(b, &d) {
        return None;
    }
    let (user, p) = match read_address(b, 8) {
        Some(x) => x,
        None => return None,
    };
    let (recipient, p) = match read_address(b, p) {
        Some(x) => x,
        None => return None,
    };
    let (timestamp, p) = match read_i64(b, p) {
        Some(x) => x,
        None => return None,
    };
    let (content, _) = match read_string(b, p) {
        Some(x) => x,
        None => return None,
    };
    Some(Dm { user, recipient, timestamp, content })
}

/// Decoding the bytes of a direct message within its bound, whatever
/// follows them, gives back that message.
pub proof fn lemma_dm_round_trip(m: DmView, rest: Seq<u8>)
    requires
        m.user.len() == 32,
        m.recipient.len() == 32,
        m.wf(),
    ensures
        parse_dm(dm_bytes(m) + rest) == Some(m),
{
    lemma_utf8_len_bound(m.content);
    let b = dm_bytes(m) + rest;
    let d = dm_discriminator();
    let p1 = 8int;
    let p2 = p1 + 32;
    let p3 = p2 + 32;
    let p4 = p3 + 8;
    let p5 = p4 + string_bytes(m.content).len();
    lemma_auto_spec_u64_to_from_le_bytes();
    lemma_auto_spec_u32_to_from_le_bytes();
    assert(d.len() == 8);
    assert(i64_bytes(m.timestamp).len() == 8);
    assert(b.subrange(0, 8) =~= d);
    assert(b.subrange(p1, p2) =~= m.user);
    lemma_parse_address(b, p1, m.user);
    assert(b.subrange(p2, p3) =~= m.recipient);
    lemma_parse_address(b, p2, m.recipient);
    assert(b.subrange(p3, p4) =~= i64_bytes(m.timestamp));
    lemma_parse_i64(b, p3, m.timestamp);
    assert(b.subrange(p4, p5) =~= string_bytes(m.content));
    lemma_parse_string(b, p4, m.content);
}

/// The discriminator of an alias record.
pub open spec fn user_alias_discriminator() -> Seq<u8> {
    discriminator_of("account:UserAlias"@)
}

/// The stored bytes of an alias record.
pub open spec fn user_alias_bytes(u: UserAliasView) -> Seq<u8> {
    user_alias_discriminator() + string_bytes(u.alias) + seq![u.bump]
}

/// The alias record that bytes starting with its layout hold.
pub open spec fn parse_user_alias(b: Seq<u8>) -> Option<UserAliasView> {
    if !starts_with(b, user_alias_discriminator()) {
        None
    } else {
        match parse_string(b, 8) {
            None => None,
            Some((alias, p)) => match parse_u8(b, p) {
                None => None,
                Some((bump, _)) => Some(UserAliasView { alias, bump }),
            },
        }
    }
}

/// Encodes an alias record.
pub fn encode_user_alias(u: &UserAlias) -> (r: Vec<u8>)
    requires
        u.wf(),
    ensures
        r@ == user_alias_bytes(u@),
{
    proof {
        lemma_utf8_len_bound(u.alias@);
    }
    let mut out = discriminator("account:UserAlias");
    write_string(&mut out, &u.alias);
    write_u8(&mut out, u.bump);
    out
}

/// Decodes an alias record from the start of `b`.
pub fn decode_user_alias(b: &[u8]) -> (r: Option<UserAlias>)
    ensures
        match r {
            Some(u) => parse_user_alias(b@) == Some(u@),
            None => parse_user_alias(b@) is None,
        },
{
    let d = discriminator("account:UserAlias");
    if !read_discriminator(b, &d) {
        return None;
    }
    let (alias, p) = match read_string(b, 8) {
        Some(x) => x,
        None => return None,
    };
    let (bump, _) = match read_u8(b, p) {
        Some(x) => x,
        None => return None,
    };
    Some(UserAlias { alias, bump })
}

/// Decoding the bytes of an alias record within its bound, whatever follows
/// them, gives back that record.
pub proof fn lemma_user_alias_round_trip(u: UserAliasView, rest: Seq<u8>)
    requires
        u.wf(),
    ensures
        parse_user_alias(user_alias_bytes(u) + rest) == Some(u),
{
    lemma_utf8_len_bound(u.alias);
    let b = user_alias_bytes(u) + rest;
    let d = user_alias_discriminator();
    let p1 = 8int;
    let p2 = p1 + string_bytes(u.alias).len();
    lemma_auto_spec_u32_to_from_le_bytes();
    assert(d.len() == 8);
    assert(b.subrange(0, 8) =~= d);
    assert(b.subrange(p1, p2) =~= string_bytes(u.alias));
    lemma_parse_string(b, p1, u.alias);
    assert(b.subrange(p2, p2 + 1) =~= seq![u.bump]);
    lemma_parse_u8(b, p2, u.bump);
}

proof fn lemma_string_bytes_len(s: Seq<char>)
    ensures
        string_bytes(s).len() == 4 + encode_utf8(s).len(),
        string_bytes(s).len() <= 4 + 4 * s.len(),
{
    lemma_auto_spec_u32_to_from_le_bytes();
    lemma_utf8_len_bound(s);
}

/// A post within its bounds fits the capacity reserved for it.
pub proof fn lemma_tweet_fits(t: TweetView)
    requires
        t.user.len() == 32,
        t.wf(),
    ensures
        tweet_bytes(t).len() <= TWEET_LEN,
{
    lemma_auto_spec_u64_to_from_le_bytes();
    lemma_string_bytes_len(t.tag);
    lemma_string_bytes_len(t.content);
}

/// A comment within its bound fits the capacity reserved for it.
pub proof fn lemma_comment_fits(c: CommentView)
    requires
        c.user.len() == 32,
        c.tweet.len() == 32,
        c.parent.len() == 32,
        c.wf(),
    ensures
        comment_bytes(c).len() <= COMMENT_LEN,
{
    lemma_auto_spec_u64_to_from_le_bytes();
    lemma_string_bytes_len(c.content);
}

/// A vote fits the capacity reserved for it exactly.
pub proof fn lemma_voting_fits(v: VotingView)
    requires
        v.tweet.len() == 32,
    ensures
        voting_bytes(v).len() == VOTING_LEN,
{
    lemma_auto_spec_u64_to_from_le_bytes();
}

/// A direct message within its bound fits the capacity reserved for it.
pub proof fn lemma_dm_fits(m: DmView)
    requires
        m.user.len() == 32,
        m.recipient.len() == 32,
        m.wf(),
    ensures
        dm_bytes(m).len() <= DM_LEN,
{
    lemma_auto_spec_u64_to_from_le_bytes();
    lemma_string_bytes_len(m.content);
}

/// An alias record within its bound fits the capacity reserved for it.
pub proof fn lemma_user_alias_fits(u: UserAliasView)
    requires
        u.wf(),
    ensures
        user_alias_bytes(u).len() <= USER_ALIAS_LEN,
{
    lemma_string_bytes_len(u.alias);
}

} // verus!
