//! Posts: creation, update by the owner, and deletion.
use crate::address::Address;
use crate::errors::{outcome, ErrorCode};
use crate::size::{char_count, CONTENT_MAX_CHARS, TAG_MAX_CHARS};
use vstd::prelude::*;

verus! {

/// A post.
#[derive(Debug, Clone, PartialEq, Eq)]
pub struct Tweet {
    /// The owner.
    pub user: Address,
    /// Seconds since the epoch at creation.
    pub timestamp: i64,
    pub tag: String,
    pub content: String,
    /// Whether an update was ever accepted.
    pub edited: bool,
}

/// The value of a post.
pub struct TweetView {
    pub user: Seq<u8>,
    pub timestamp: i64,
    pub tag: Seq<char>,
    pub content: Seq<char>,
    pub edited: bool,
}

impl TweetView {
    /// Both string fields are within their bounds.
    pub open spec fn wf(&self) -> bool {
        self.tag.len() <= TAG_MAX_CHARS && self.content.len() <= CONTENT_MAX_CHARS
    }
}

impl View for Tweet {
    type V = TweetView;

    open spec fn view(&self) -> TweetView {
        TweetView {
            user: self.user@,
            timestamp: self.timestamp,
            tag: self.tag@,
            content: self.content@,
            edited: self.edited,
        }
    }
}

/// The error, if any, with which a post of this tag and content is refused.
pub open spec fn tweet_create_error(tag: Seq<char>, content: Seq<char>) -> Option<ErrorCode> {
    if tag.len() > TAG_MAX_CHARS {
        Some(ErrorCode::TagTooLong)
    } else if content.len() > CONTENT_MAX_CHARS {
        Some(ErrorCode::ContentTooLong)
    } else if content.len() == 0 {
        Some(ErrorCode::NoContent)
    } else {
        None
    }
}

/// The error, if any, with which the update of a post that holds
/// (`cur_tag`, `cur_content`) to (`tag`, `content`) is refused: an update
/// that changes nothing is refused before the bounds are looked at.
pub open spec fn tweet_update_error(
    cur_tag: Seq<char>,
    cur_content: Seq<char>,
    tag: Seq<char>,
    content: Seq<char>,
) -> Option<ErrorCode> {
    if tag == cur_tag && content == cur_content {
        Some(ErrorCode::NothingChanged)
    } else if tag.len() > TAG_MAX_CHARS {
        Some(ErrorCode::TagTooLong)
    } else if content.len() > CONTENT_MAX_CHARS {
        Some(ErrorCode::ContentTooLong)
    } else {
        None
    }
}

impl Tweet {
    /// Both string fields are within their bounds.
    pub open spec fn wf(&self) -> bool {
        self@.wf()
    }

    /// Replaces tag and content and marks the post edited; refuses an update
    /// that changes nothing, then one out of bounds.
    pub fn update(&mut self, tag: String, content: String) -> (r: Result<(), ErrorCode>)
        ensures
            r == outcome(tweet_update_error(old(self).tag@, old(self).content@, tag@, content@)),
            tag@ == old(self).tag@ && content@ == old(self).content@ ==> r == Err::<
                (),
                ErrorCode,
            >(ErrorCode::NothingChanged),
            r is Ok ==> final(self).tag@ == tag@ && final(self).content@ == content@
                && final(self).edited && final(self).user == old(self).user
                && final(self).timestamp == old(self).timestamp,
            r is Err ==> *final(self) == *old(self),
    {
        if self.tag == tag && self.content == content {
            return Err(ErrorCode::NothingChanged);
        }
        if char_count(&tag) > TAG_MAX_CHARS {
            return Err(ErrorCode::TagTooLong);
        }
        if char_count(&content) > CONTENT_MAX_CHARS {
            return Err(ErrorCode::ContentTooLong);
        }
        self.tag = tag;
        self.content = content;
        self.edited = true;
        Ok(())
    }
}

/// The accounts of a post's creation: the signing author.
pub struct SendTweet {
    pub user: Address,
}

/// The accounts of a post's update: the post and the signer.
pub struct UpdateTweet {
    pub tweet: Tweet,
    pub user: Address,
}

/// The accounts of a post's deletion: the post and the signer.
pub struct DeleteTweet {
    pub tweet: Tweet,
    pub user: Address,
}

/// Creates a post by `ctx.user` at time `now`, not edited.
pub fn send_tweet(ctx: &SendTweet, now: i64, tag: String, content: String) -> (r: Result<
    Tweet,
    ErrorCode,
>)
    ensures
        r is Ok <==> tweet_create_error(tag@, content@) is None,
        r matches Err(e) ==> tweet_create_error(tag@, content@) == Some(e),
        r matches Ok(t) ==> t.user == ctx.user && t.timestamp == now && t.tag@ == tag@
            && t.content@ == content@ && !t.edited && t.wf(),
        tag@.len() <= TAG_MAX_CHARS && 0 < content@.len() <= CONTENT_MAX_CHARS ==> (r matches Ok(t) && !t.edited),
        tag@.len() <= TAG_MAX_CHARS && content@.len() == 0 ==> r == Err::<Tweet, ErrorCode>(
            ErrorCode::NoContent,
        ),
        tag@.len() > TAG_MAX_CHARS ==> r == Err::<Tweet, ErrorCode>(ErrorCode::TagTooLong),
{
    let tag_len = char_count(&tag);
    let content_len = char_count(&content);
    if tag_len > TAG_MAX_CHARS {
        return Err(ErrorCode::TagTooLong);
    }
    if content_len > CONTENT_MAX_CHARS {
        return Err(ErrorCode::ContentTooLong);
    }
    if content_len == 0 {
        return Err(ErrorCode::NoContent);
    }
    Ok(Tweet { user: ctx.user, timestamp: now, tag, content, edited: false })
}

/// Updates the post on behalf of `ctx.user`, who must own it.
pub fn update_tweet(ctx: &mut UpdateTweet, new_tag: String, new_content: String) -> (r: Result<
    (),
    ErrorCode,
>)
    ensures
        r == outcome(
            if old(ctx).user@ != old(ctx).tweet.user@ {
                Some(ErrorCode::Unauthorized)
            } else {
                tweet_update_error(
                    old(ctx).tweet.tag@,
                    old(ctx).tweet.content@,
                    new_tag@,
                    new_content@,
                )
            },
        ),
        old(ctx).user@ != old(ctx).tweet.user@ ==> r == Err::<(), ErrorCode>(
            ErrorCode::Unauthorized,
        ) && *final(ctx) == *old(ctx),
        old(ctx).user@ == old(ctx).tweet.user@ && new_tag@ == old(ctx).tweet.tag@ && new_content@
            == old(ctx).tweet.content@ ==> r == Err::<(), ErrorCode>(ErrorCode::NothingChanged),
        r is Ok ==> final(ctx).tweet.tag@ == new_tag@ && final(ctx).tweet.content@ == new_content@
            && final(ctx).tweet.edited && final(ctx).tweet.user == old(ctx).tweet.user
            && final(ctx).tweet.timestamp == old(ctx).tweet.timestamp && final(ctx).user
            == old(ctx).user,
        r is Err ==> *final(ctx) == *old(ctx),
{
    if !ctx.user.same(&ctx.tweet.user) {
        return Err(ErrorCode::Unauthorized);
    }
    ctx.tweet.update(new_tag, new_content)
}

/// Closes the post on behalf of `ctx.user`, who must own it; gives the
/// identity to which the post's storage is refunded.
pub fn delete_tweet(ctx: DeleteTweet) -> (r: Result<Address, ErrorCode>)
    ensures
        r is Ok <==> ctx.user@ == ctx.tweet.user@,
        r matches Ok(a) ==> a == ctx.tweet.user,
        r matches Err(e) ==> e == ErrorCode::Unauthorized,
{
    if !ctx.user.same(&ctx.tweet.user) {
        return Err(ErrorCode::Unauthorized);
    }
    Ok(ctx.tweet.user)
}

} // verus!
