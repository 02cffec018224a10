//! Direct messages: written once, never changed.
use crate::address::Address;
use crate::errors::ErrorCode;
use crate::size::{char_count, CONTENT_MAX_CHARS};
use vstd::prelude::*;

verus! {

/// A direct message from its owner to a recipient.
#[derive(Debug, Clone, PartialEq, Eq)]
pub struct Dm {
    /// The sender.
    pub user: Address,
    pub recipient: Address,
    /// Seconds since the epoch at sending.
    pub timestamp: i64,
    pub content: String,
}

/// The value of a direct message.
pub struct DmView {
    pub user: Seq<u8>,
    pub recipient: Seq<u8>,
    pub timestamp: i64,
    pub content: Seq<char>,
}

impl DmView {
    /// The content is within its bound.
    pub open spec fn wf(&self) -> bool {
        self.content.len() <= CONTENT_MAX_CHARS
    }
}

impl View for Dm {
    type V = DmView;

    open spec fn view(&self) -> DmView {
        DmView {
            user: self.user@,
            recipient: self.recipient@,
            timestamp: self.timestamp,
            content: self.content@,
        }
    }
}

impl Dm {
    /// The content is within its bound.
    pub open spec fn wf(&self) -> bool {
        self@.wf()
    }
}

/// The accounts of a message's sending: the signing sender.
pub struct SendDm {
    pub user: Address,
}

/// Sends a message from `ctx.user` to `recipient` at time `now`.
pub fn send_dm(ctx: &SendDm, now: i64, recipient: Address, content: String) -> (r: Result<
    Dm,
    ErrorCode,
>)
    ensures
        r is Ok <==> content@.len() <= CONTENT_MAX_CHARS,
        r matches Err(e) ==> e == ErrorCode::ContentTooLong,
        r matches Ok(m) ==> m.user == ctx.user && m.recipient == recipient && m.timestamp == now
            && m.content@ == content@ && m.wf(),
{
    if char_count(&content) > CONTENT_MAX_CHARS {
        return Err(ErrorCode::ContentTooLong);
    }
    Ok(Dm { user: ctx.user, recipient, timestamp: now, content })
}

} // verus!
