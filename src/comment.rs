//! Comments on posts, flat or threaded.
use crate::address::Address;
use crate::errors::{outcome, ErrorCode};
use crate::size::{char_count, CONTENT_MAX_CHARS};
use vstd::prelude::*;

verus! {

/// A comment on a post, in reply to the post itself or to another comment.
#[derive(Debug, Clone, PartialEq, Eq)]
pub struct Comment {
    /// The owner.
    pub user: Address,
    /// The post commented on.
    pub tweet: Address,
    /// What the comment replies to: the post, or a comment under it.
    pub parent: Address,
    /// Seconds since the epoch at creation.
    pub timestamp: i64,
    pub content: String,
    /// Whether an update was ever accepted.
    pub edited: bool,
}

/// The value of a comment.
pub struct CommentView {
    pub user: Seq<u8>,
    pub tweet: Seq<u8>,
    pub parent: Seq<u8>,
    pub timestamp: i64,
    pub content: Seq<char>,
    pub edited: bool,
}

impl CommentView {
    /// The content is within its bound.
    pub open spec fn wf(&self) -> bool {
        self.content.len() <= CONTENT_MAX_CHARS
    }
}

impl View for Comment {
    type V = CommentView;

    open spec fn view(&self) -> CommentView {
        CommentView {
            user: self.user@,
            tweet: self.tweet@,
            parent: self.parent@,
            timestamp: self.timestamp,
            content: self.content@,
            edited: self.edited,
        }
    }
}

/// The error, if any, with which a comment of this content is refused.
pub open spec fn comment_create_error(content: Seq<char>) -> Option<ErrorCode> {
    if content.len() > CONTENT_MAX_CHARS {
        Some(ErrorCode::ContentTooLong)
    } else {
        None
    }
}

/// The error, if any, with which the update of a comment that holds
/// `cur_content` to `content` is refused.
pub open spec fn comment_update_error(cur_content: Seq<char>, content: Seq<char>) -> Option<
    ErrorCode,
> {
    if content == cur_content {
        Some(ErrorCode::NothingChanged)
    } else if content.len() > CONTENT_MAX_CHARS {
        Some(ErrorCode::ContentTooLong)
    } else {
        None
    }
}

impl Comment {
    /// The content is within its bound.
    pub open spec fn wf(&self) -> bool {
        self@.wf()
    }

    /// Replaces the content and marks the comment edited.
    pub fn update(&mut self, content: String) -> (r: Result<(), ErrorCode>)
        ensures
            r == outcome(comment_update_error(old(self).content@, content@)),
            r is Ok ==> final(self).content@ == content@ && final(self).edited && final(self).user
                == old(self).user && final(self).tweet == old(self).tweet && final(self).parent
                == old(self).parent && final(self).timestamp == old(self).timestamp,
            r is Err ==> *final(self) == *old(self),
    {
        if self.content == content {
            return Err(ErrorCode::NothingChanged);
        }
        if char_count(&content) > CONTENT_MAX_CHARS {
            return Err(ErrorCode::ContentTooLong);
        }
        self.content = content;
        self.edited = true;
        Ok(())
    }
}

/// The accounts of a comment's creation: the signing author.
pub struct SendComment {
    pub user: Address,
}

/// The accounts of a comment's update: the comment and the signer.
pub struct UpdateComment {
    pub comment: Comment,
    pub user: Address,
}

/// Creates a comment by `ctx.user` at time `now` on the post `tweet`, in
/// reply to `parent` if one is given and to the post otherwise.
pub fn send_comment(
    ctx: &SendComment,
    now: i64,
    tweet: Address,
    content: String,
    parent: Option<Address>,
) -> (r: Result<Comment, ErrorCode>)
    ensures
        r is Ok <==> comment_create_error(content@) is None,
        r matches Err(e) ==> comment_create_error(content@) == Some(e),
        r matches Ok(c) ==> c.user == ctx.user && c.tweet == tweet && c.parent == (match parent {
            Some(p) => p,
            None => tweet,
        }) && c.timestamp == now && c.content@ == content@ && !c.edited && c.wf(),
{
    if char_count(&content) > CONTENT_MAX_CHARS {
        return Err(ErrorCode::ContentTooLong);
    }
    let parent = match parent {
        Some(p) => p,
        None => tweet,
    };
    Ok(Comment { user: ctx.user, tweet, parent, timestamp: now, content, edited: false })
}

/// Updates the comment on behalf of `ctx.user`, who must own it.
pub fn update_comment(ctx: &mut UpdateComment, new_content: String) -> (r: Result<(), ErrorCode>)
    ensures
        r == outcome(
            if old(ctx).user@ != old(ctx).comment.user@ {
                Some(ErrorCode::Unauthorized)
            } else {
                comment_update_error(old(ctx).comment.content@, new_content@)
            },
        ),
        r is Ok ==> final(ctx).comment.content@ == new_content@ && final(ctx).comment.edited
            && final(ctx).comment.user == old(ctx).comment.user && final(ctx).comment.tweet
            == old(ctx).comment.tweet && final(ctx).comment.parent == old(ctx).comment.parent
            && final(ctx).comment.timestamp == old(ctx).comment.timestamp && final(ctx).user
            == old(ctx).user,
        r is Err ==> *final(ctx) == *old(ctx),
{
    if !ctx.user.same(&ctx.comment.user) {
        return Err(ErrorCode::Unauthorized);
    }
    ctx.comment.update(new_content)
}

} // verus!
