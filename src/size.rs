//! The size model: the fixed width of each field and the storage capacity of
//! each record, and the character bounds on string fields.
use vstd::prelude::*;
use vstd::string::*;

verus! {

/// Width of the type discriminator that starts every record.
pub const DISCRIMINATOR: usize = 8;

/// Width of an identity.
pub const PUBLIC_KEY: usize = 32;

/// Width of a timestamp.
pub const TIMESTAMP: usize = 8;

/// Width of the length prefix of a string.
pub const STRING_LENGTH: usize = 4;

/// Most characters in a tag.
pub const TAG_MAX_CHARS: usize = 50;

/// Most characters in the content of a post, comment or message.
pub const CONTENT_MAX_CHARS: usize = 280;

/// Most characters in an alias.
pub const ALIAS_MAX_CHARS: usize = 50;

/// Bytes reserved for a tag: four for each character.
pub const TAG_MAX: usize = TAG_MAX_CHARS * 4;

/// Bytes reserved for content: four for each character.
pub const CONTENT_MAX: usize = CONTENT_MAX_CHARS * 4;

/// Bytes reserved for an alias: four for each character.
pub const ALIAS_MAX: usize = ALIAS_MAX_CHARS * 4;

/// Width of the edited flag.
pub const EDITED: usize = 1;

/// Width of a vote's result.
pub const VOTING_RESULT: usize = 1;

/// Width of the bump of a derived address.
pub const BUMP: usize = 1;

/// Storage capacity of a post.
pub const TWEET_LEN: usize = DISCRIMINATOR + PUBLIC_KEY + TIMESTAMP + STRING_LENGTH + TAG_MAX
    + STRING_LENGTH + CONTENT_MAX + EDITED;

/// Storage capacity of a comment.
pub const COMMENT_LEN: usize = DISCRIMINATOR + PUBLIC_KEY + PUBLIC_KEY + PUBLIC_KEY + TIMESTAMP
    + STRING_LENGTH + CONTENT_MAX + EDITED;

/// Storage capacity of a vote.
pub const VOTING_LEN: usize = DISCRIMINATOR + PUBLIC_KEY + TIMESTAMP + VOTING_RESULT + BUMP;

/// Storage capacity of a direct message.
pub const DM_LEN: usize = DISCRIMINATOR + PUBLIC_KEY + PUBLIC_KEY + TIMESTAMP + STRING_LENGTH
    + CONTENT_MAX;

/// Storage capacity of an alias.
pub const USER_ALIAS_LEN: usize = DISCRIMINATOR + STRING_LENGTH + ALIAS_MAX + BUMP;

/// The number of characters (Unicode scalar values) in a string.
pub fn char_count(s: &String) -> (r: usize)
    ensures
        r == s@.len(),
{
    s.as_str().unicode_len()
}

} // verus!
