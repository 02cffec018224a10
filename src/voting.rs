//! Votes: one record per identity, at an address derived from the identity.
use crate::address::{derive_address, derived_is, found_program_address, is_derived, program_address, record_seeds, record_seeds_with_bump, rederive_address, Address};
use crate::errors::{outcome, ErrorCode};
use vstd::prelude::*;

verus! {

/// The verdict of a vote.
#[derive(Debug, Clone, Copy, PartialEq, Eq, Structural)]
pub enum VotingResult {
    Like,
    NoVoting,
    Dislike,
}

/// A vote on a post, stored at the address derived from its voter.
#[derive(Debug, Clone, Copy, PartialEq, Eq)]
pub struct Voting {
    /// The post voted on.
    pub tweet: Address,
    /// Seconds since the epoch at creation.
    pub timestamp: i64,
    pub result: VotingResult,
    /// The bump with which the record's address was derived.
    pub bump: u8,
}

/// The value of a vote.
pub struct VotingView {
    pub tweet: Seq<u8>,
    pub timestamp: i64,
    pub result: VotingResult,
    pub bump: u8,
}

impl View for Voting {
    type V = VotingView;

    open spec fn view(&self) -> VotingView {
        VotingView {
            tweet: self.tweet@,
            timestamp: self.timestamp,
            result: self.result,
            bump: self.bump,
        }
    }
}

/// Domain tag of a vote's address: the ASCII bytes of "voting".
pub open spec fn voting_seed() -> Seq<u8> {
    seq![118u8, 111u8, 116u8, 105u8, 110u8, 103u8]
}

/// The bytes of the domain tag of a vote's address.
pub fn voting_seed_bytes() -> (r: [u8; 6])
    ensures
        r@ == voting_seed(),
{
    let r: [u8; 6] = [118, 111, 116, 105, 110, 103];
    proof {
        assert(r@ =~= voting_seed());
    }
    r
}

impl Voting {
    /// Replaces the result; refuses the result already held.
    pub fn update(&mut self, result: VotingResult) -> (r: Result<(), ErrorCode>)
        ensures
            r == outcome(
                if result == old(self).result {
                    Some(ErrorCode::NothingChanged)
                } else {
                    None
                },
            ),
            *final(self) == (if r is Ok {
                Voting { result, ..*old(self) }
            } else {
                *old(self)
            }),
    {
        if self.result == result {
            return Err(ErrorCode::NothingChanged);
        }
        self.result = result;
        Ok(())
    }
}

/// The accounts of a vote's creation: the program, the address of the new
/// record and the signing voter.
pub struct Vote {
    pub program_id: Address,
    pub voting: Address,
    pub user: Address,
}

/// The accounts of a vote's update: the program, the signer, the record's
/// address and the record.
pub struct UpdateVoting {
    pub program_id: Address,
    pub user: Address,
    pub address: Address,
    pub voting: Voting,
}

/// Casts a vote at `ctx.voting`, given the address and bump derived from
/// the voter, if any: the address must be `ctx.voting`.
pub fn vote_at(
    ctx: &Vote,
    now: i64,
    tweet: Address,
    result: VotingResult,
    derived: Option<(Address, u8)>,
) -> (r: Result<Voting, ErrorCode>)
    ensures
        r is Ok <==> (derived matches Some((a, _)) && a@ == ctx.voting@),
        r matches Err(e) ==> e == ErrorCode::AddressMismatch,
        r matches Ok(v) ==> v.tweet == tweet && v.timestamp == now && v.result == result
            && (derived matches Some((_, b)) && v.bump == b),
{
    match derived {
        Some((a, bump)) => {
            if !a.same(&ctx.voting) {
                return Err(ErrorCode::AddressMismatch);
            }
            Ok(Voting { tweet, timestamp: now, result, bump })
        },
        None => Err(ErrorCode::AddressMismatch),
    }
}

/// Casts the vote of `ctx.user` on `tweet` at time `now`, at the address
/// derived from the voter; the derived bump is kept in the record.
pub fn vote(ctx: &Vote, now: i64, tweet: Address, result: VotingResult) -> (r: Result<
    Voting,
    ErrorCode,
>)
    ensures
        r is Ok <==> (found_program_address(
            record_seeds(voting_seed(), ctx.user@),
            ctx.program_id@,
        ) matches Some((a, _)) && a == ctx.voting@),
        r matches Err(e) ==> e == ErrorCode::AddressMismatch,
        r matches Ok(v) ==> v.tweet == tweet && v.timestamp == now && v.result == result
            && found_program_address(record_seeds(voting_seed(), ctx.user@), ctx.program_id@)
            == Some((ctx.voting@, v.bump)) && program_address(
            record_seeds_with_bump(voting_seed(), ctx.user@, v.bump),
            ctx.program_id@,
        ) == Some(ctx.voting@),
{
    let seed = voting_seed_bytes();
    let derived = derive_address(&seed, &ctx.user, &ctx.program_id);
    vote_at(ctx, now, tweet, result, derived)
}

/// Changes the vote in `ctx`, given the address re-derived from the voter
/// and the stored bump, if any: it must be the record's address.
pub fn update_voting_at(ctx: &mut UpdateVoting, new_result: VotingResult, rederived: Option<
    Address,
>) -> (r: Result<(), ErrorCode>)
    ensures
        r == outcome(
            if !derived_is(rederived, old(ctx).address) {
                Some(ErrorCode::AddressMismatch)
            } else if new_result == old(ctx).voting.result {
                Some(ErrorCode::NothingChanged)
            } else {
                None
            },
        ),
        *final(ctx) == (if r is Ok {
            UpdateVoting { voting: Voting { result: new_result, ..old(ctx).voting }, ..*old(ctx) }
        } else {
            *old(ctx)
        }),
{
    if !is_derived(&rederived, &ctx.address) {
        return Err(ErrorCode::AddressMismatch);
    }
    ctx.voting.update(new_result)
}

/// Changes the vote of `ctx.user`, whose identity and the stored bump must
/// derive the record's address.
pub fn update_voting(ctx: &mut UpdateVoting, new_result: VotingResult) -> (r: Result<(), ErrorCode>)
    ensures
        r == outcome(
            if program_address(
                record_seeds_with_bump(voting_seed(), old(ctx).user@, old(ctx).voting.bump),
                old(ctx).program_id@,
            ) != Some(old(ctx).address@) {
                Some(ErrorCode::AddressMismatch)
            } else if new_result == old(ctx).voting.result {
                Some(ErrorCode::NothingChanged)
            } else {
                None
            },
        ),
        *final(ctx) == (if r is Ok {
            UpdateVoting { voting: Voting { result: new_result, ..old(ctx).voting }, ..*old(ctx) }
        } else {
            *old(ctx)
        }),
{
    let seed = voting_seed_bytes();
    let rederived = rederive_address(&seed, &ctx.user, ctx.voting.bump, &ctx.program_id);
    update_voting_at(ctx, new_result, rederived)
}

} // verus!
