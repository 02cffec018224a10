use vstd::prelude::*;

verus! {

/// Every way in which an operation on a record can be refused.
#[derive(Debug, Clone, Copy, PartialEq, Eq, Structural)]
pub enum ErrorCode {
    /// The tag exceeds its character bound.
    TagTooLong,
    /// A post was created without content.
    NoContent,
    /// The content exceeds its character bound.
    ContentTooLong,
    /// An update would leave the record as it is.
    NothingChanged,
    /// A vote that cannot be cast.
    InvalidVote,
    /// An alias is already registered for this identity.
    AliasPresent,
    /// The alias exceeds its character bound.
    AliasTooLong,
    /// The caller is not the owner of the record.
    Unauthorized,
    /// The owner and domain tag do not derive the record's address.
    AddressMismatch,
}

/// `Ok` where no error is given, else that error.
pub open spec fn outcome(e: Option<ErrorCode>) -> Result<(), ErrorCode> {
    match e {
        Some(e) => Err(e),
        None => Ok(()),
    }
}

impl ErrorCode {
    /// A human-readable description of the error.
    pub fn message(&self) -> (r: String)
        ensures
            r@.len() > 0,
    {
        let s = match self {
            ErrorCode::TagTooLong => "Exceeding maximum tag length of 50 characters",
            ErrorCode::NoContent => "Trying to send a tweet without content",
            ErrorCode::ContentTooLong => "Exceeding maximum content length of 280 characters",
            ErrorCode::NothingChanged => "Nothing that could be updated",
            ErrorCode::InvalidVote => "Trying to send an invalid vote",
            ErrorCode::AliasPresent => "An alias for this user is already registered",
            ErrorCode::AliasTooLong => "Exceeding maximum alias length of 50 characters",
            ErrorCode::Unauthorized => "The signer does not own this account",
            ErrorCode::AddressMismatch => "The seeds do not derive this account's address",
        };
        proof {
            reveal_strlit("Exceeding maximum tag length of 50 characters");
            reveal_strlit("Trying to send a tweet without content");
            reveal_strlit("Exceeding maximum content length of 280 characters");
            reveal_strlit("Nothing that could be updated");
            reveal_strlit("Trying to send an invalid vote");
            reveal_strlit("An alias for this user is already registered");
            reveal_strlit("Exceeding maximum alias length of 50 characters");
            reveal_strlit("The signer does not own this account");
            reveal_strlit("The seeds do not derive this account's address");
        }
        s.to_owned()
    }
}

} // verus!
