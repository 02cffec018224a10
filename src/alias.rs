//! Display aliases: one per identity, at an address derived from it.
use crate::address::{derive_address, derived_is, found_program_address, is_derived, program_address, record_seeds, record_seeds_with_bump, rederive_address, Address};
use crate::errors::{outcome, ErrorCode};
use crate::size::{char_count, ALIAS_MAX_CHARS};
use vstd::prelude::*;

verus! {

/// The display name of an identity, stored at the address derived from it.
#[derive(Debug, Clone, PartialEq, Eq)]
pub struct UserAlias {
    pub alias: String,
    /// The bump with which the record's address was derived.
    pub bump: u8,
}

/// The value of an alias record.
pub struct UserAliasView {
    pub alias: Seq<char>,
    pub bump: u8,
}

impl UserAliasView {
    /// The alias is within its bound.
    pub open spec fn wf(&self) -> bool {
        self.alias.len() <= ALIAS_MAX_CHARS
    }
}

impl View for UserAlias {
    type V = UserAliasView;

    open spec fn view(&self) -> UserAliasView {
        UserAliasView { alias: self.alias@, bump: self.bump }
    }
}

/// Domain tag of an alias's address: the ASCII bytes of "user-alias".
pub open spec fn alias_seed() -> Seq<u8> {
    seq![117u8, 115u8, 101u8, 114u8, 45u8, 97u8, 108u8, 105u8, 97u8, 115u8]
}

/// The bytes of the domain tag of an alias's address.
pub fn alias_seed_bytes() -> (r: [u8; 10])
    ensures
        r@ == alias_seed(),
{
    let r: [u8; 10] = [117, 115, 101, 114, 45, 97, 108, 105, 97, 115];
    proof {
        assert(r@ =~= alias_seed());
    }
    r
}

/// The error, if any, with which the update of an alias `cur` to `alias` is
/// refused.
pub open spec fn alias_update_error(cur: Seq<char>, alias: Seq<char>) -> Option<ErrorCode> {
    if alias == cur {
        Some(ErrorCode::NothingChanged)
    } else if alias.len() > ALIAS_MAX_CHARS {
        Some(ErrorCode::AliasTooLong)
    } else {
        None
    }
}

impl UserAlias {
    /// The alias is within its bound.
    pub open spec fn wf(&self) -> bool {
        self@.wf()
    }

    /// Replaces the alias; refuses the alias already held, then one too long.
    pub fn update(&mut self, new_alias: String) -> (r: Result<(), ErrorCode>)
        ensures
            r == outcome(alias_update_error(old(self).alias@, new_alias@)),
            r is Ok ==> final(self).alias@ == new_alias@ && final(self).bump == old(self).bump,
            r is Err ==> *final(self) == *old(self),
    {
        if self.alias == new_alias {
            return Err(ErrorCode::NothingChanged);
        }
        if char_count(&new_alias) > ALIAS_MAX_CHARS {
            return Err(ErrorCode::AliasTooLong);
        }
        self.alias = new_alias;
        Ok(())
    }
}

/// The accounts of an alias's creation: the program, the address of the new
/// record and the signing identity.
pub struct CreateUserAlias {
    pub program_id: Address,
    pub user_alias: Address,
    pub user: Address,
}

/// The accounts of an alias's update: the program, the signer, the record's
/// address and the record.
pub struct UpdateUserAlias {
    pub program_id: Address,
    pub user: Address,
    pub address: Address,
    pub user_alias: UserAlias,
}

/// The error, if any, with which an alias is refused at an address that the
/// derivation did or did not confirm.
pub open spec fn alias_create_error(at_derived: bool, alias: Seq<char>) -> Option<ErrorCode> {
    if !at_derived {
        Some(ErrorCode::AddressMismatch)
    } else if alias.len() > ALIAS_MAX_CHARS {
        Some(ErrorCode::AliasTooLong)
    } else {
        None
    }
}

/// Registers an alias at `ctx.user_alias`, given the address and bump
/// derived from the identity, if any: the address must be `ctx.user_alias`.
pub fn create_alias_at(ctx: &CreateUserAlias, alias: String, derived: Option<(Address, u8)>) -> (r:
    Result<UserAlias, ErrorCode>)
    ensures
        r is Ok <==> alias_create_error(
            derived matches Some((a, _)) && a@ == ctx.user_alias@,
            alias@,
        ) is None,
        r matches Err(e) ==> alias_create_error(
            derived matches Some((a, _)) && a@ == ctx.user_alias@,
            alias@,
        ) == Some(e),
        r matches Ok(u) ==> u.alias@ == alias@ && (derived matches Some((_, b)) && u.bump == b)
            && u.wf(),
{
    match derived {
        Some((a, bump)) => {
            if !a.same(&ctx.user_alias) {
                return Err(ErrorCode::AddressMismatch);
            }
            if char_count(&alias) > ALIAS_MAX_CHARS {
                return Err(ErrorCode::AliasTooLong);
            }
            Ok(UserAlias { alias, bump })
        },
        None => Err(ErrorCode::AddressMismatch),
    }
}

/// Registers the alias of `ctx.user` at the address derived from it; the
/// derived bump is kept in the record.
pub fn create_alias(ctx: &CreateUserAlias, alias: String) -> (r: Result<UserAlias, ErrorCode>)
    ensures
        r == Err::<UserAlias, ErrorCode>(ErrorCode::AddressMismatch) <==> !(found_program_address(
            record_seeds(alias_seed(), ctx.user@),
            ctx.program_id@,
        ) matches Some((a, _)) && a == ctx.user_alias@),
        r == Err::<UserAlias, ErrorCode>(ErrorCode::AliasTooLong) <==> (found_program_address(
            record_seeds(alias_seed(), ctx.user@),
            ctx.program_id@,
        ) matches Some((a, _)) && a == ctx.user_alias@ && alias@.len() > ALIAS_MAX_CHARS),
        r is Ok <==> (found_program_address(
            record_seeds(alias_seed(), ctx.user@),
            ctx.program_id@,
        ) matches Some((a, _)) && a == ctx.user_alias@ && alias@.len() <= ALIAS_MAX_CHARS),
        r matches Ok(u) ==> u.alias@ == alias@ && found_program_address(
            record_seeds(alias_seed(), ctx.user@),
            ctx.program_id@,
        ) == Some((ctx.user_alias@, u.bump)) && program_address(
            record_seeds_with_bump(alias_seed(), ctx.user@, u.bump),
            ctx.program_id@,
        ) == Some(ctx.user_alias@) && u.wf(),
{
    let seed = alias_seed_bytes();
    let derived = derive_address(&seed, &ctx.user, &ctx.program_id);
    create_alias_at(ctx, alias, derived)
}

/// Changes the alias in `ctx`, given the address re-derived from the
/// identity and the stored bump, if any: it must be the record's address.
pub fn update_user_alias_at(ctx: &mut UpdateUserAlias, new_alias: String, rederived: Option<
    Address,
>) -> (r: Result<(), ErrorCode>)
    ensures
        r == outcome(
            if !derived_is(rederived, old(ctx).address) {
                Some(ErrorCode::AddressMismatch)
            } else {
                alias_update_error(old(ctx).user_alias.alias@, new_alias@)
            },
        ),
        r is Ok ==> final(ctx).user_alias.alias@ == new_alias@ && final(ctx).user_alias.bump
            == old(ctx).user_alias.bump && final(ctx).user == old(ctx).user && final(ctx).address
            == old(ctx).address && final(ctx).program_id == old(ctx).program_id,
        r is Err ==> *final(ctx) == *old(ctx),
{
    if !is_derived(&rederived, &ctx.address) {
        return Err(ErrorCode::AddressMismatch);
    }
    ctx.user_alias.update(new_alias)
}

/// Changes the alias of `ctx.user`, whose identity and the stored bump must
/// derive the record's address.
pub fn update_user_alias(ctx: &mut UpdateUserAlias, new_alias: String) -> (r: Result<
    (),
    ErrorCode,
>)
    ensures
        r == outcome(
            if program_address(
                record_seeds_with_bump(alias_seed(), old(ctx).user@, old(ctx).user_alias.bump),
                old(ctx).program_id@,
            ) != Some(old(ctx).address@) {
                Some(ErrorCode::AddressMismatch)
            } else {
                alias_update_error(old(ctx).user_alias.alias@, new_alias@)
            },
        ),
        r is Ok ==> final(ctx).user_alias.alias@ == new_alias@ && final(ctx).user_alias.bump
            == old(ctx).user_alias.bump && final(ctx).user == old(ctx).user && final(ctx).address
            == old(ctx).address && final(ctx).program_id == old(ctx).program_id,
        r is Err ==> *final(ctx) == *old(ctx),
{
    let seed = alias_seed_bytes();
    let rederived = rederive_address(&seed, &ctx.user, ctx.user_alias.bump, &ctx.program_id);
    update_user_alias_at(ctx, new_alias, rederived)
}

/// An identity has one alias slot: two creations that the derivation
/// admits for the same identity and program target the same address, so a
/// second creation meets the slot that the first one occupied.
pub proof fn lemma_one_alias_slot_per_identity(
    user: Seq<u8>,
    program_id: Seq<u8>,
    first: Seq<u8>,
    second: Seq<u8>,
)
    requires
        found_program_address(record_seeds(alias_seed(), user), program_id) matches Some((a, _))
            && a == first,
        found_program_address(record_seeds(alias_seed(), user), program_id) matches Some((a, _))
            && a == second,
    ensures
        first == second,
{
}

} // verus!
