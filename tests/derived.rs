use solana_twitter::address::{derive_address, rederive_address, Address};
use solana_twitter::alias::{alias_seed_bytes, create_alias, create_alias_at, update_user_alias, update_user_alias_at, CreateUserAlias, UpdateUserAlias};
use solana_twitter::errors::ErrorCode;
use solana_twitter::voting::{update_voting, update_voting_at, vote, vote_at, voting_seed_bytes, UpdateVoting, Vote, Voting, VotingResult};

fn id(b: u8) -> Address {
    Address::new([b; 32])
}

fn program() -> Address {
    id(42)
}

fn vote_address(user: &Address) -> (Address, u8) {
    derive_address(&voting_seed_bytes(), user, &program()).unwrap()
}

fn alias_address(user: &Address) -> (Address, u8) {
    derive_address(&alias_seed_bytes(), user, &program()).unwrap()
}

#[test]
fn seeds_are_the_domain_tags() {
    assert_eq!(&voting_seed_bytes(), b"voting");
    assert_eq!(&alias_seed_bytes(), b"user-alias");
}

#[test]
fn derivation_is_deterministic() {
    let user = id(1);
    let first = derive_address(&voting_seed_bytes(), &user, &program()).unwrap();
    let second = derive_address(&voting_seed_bytes(), &user, &program()).unwrap();
    assert_eq!(first, second);
    let a1 = alias_address(&user);
    let a2 = alias_address(&user);
    assert_eq!(a1, a2);
    assert_ne!(a1.0, first.0);
    assert_ne!(alias_address(&id(2)).0, a1.0);
    assert_ne!(first.0, user);
}

#[test]
fn rederivation_with_the_bump_gives_the_address() {
    let user = id(3);
    let (a, bump) = vote_address(&user);
    assert_eq!(rederive_address(&voting_seed_bytes(), &user, bump, &program()), Some(a));
}

#[test]
fn vote_scenario() {
    let user = id(1);
    let (address, bump) = vote_address(&user);
    let ctx = Vote { program_id: program(), voting: address, user };
    let v = vote(&ctx, 77, id(9), VotingResult::Like).unwrap();
    assert_eq!(v.tweet, id(9));
    assert_eq!(v.timestamp, 77);
    assert_eq!(v.result, VotingResult::Like);
    assert_eq!(v.bump, bump);
    let mut ctx = UpdateVoting { program_id: program(), user, address, voting: v };
    assert_eq!(update_voting(&mut ctx, VotingResult::Like), Err(ErrorCode::NothingChanged));
    assert_eq!(ctx.voting.result, VotingResult::Like);
    assert_eq!(update_voting(&mut ctx, VotingResult::Dislike), Ok(()));
    assert_eq!(ctx.voting.result, VotingResult::Dislike);
    assert_eq!(ctx.voting.timestamp, 77);
    assert_eq!(ctx.voting.bump, bump);
}

#[test]
fn vote_at_a_foreign_address() {
    let ctx = Vote { program_id: program(), voting: id(5), user: id(1) };
    assert_eq!(vote(&ctx, 0, id(9), VotingResult::Like), Err(ErrorCode::AddressMismatch));
    assert_eq!(vote_at(&ctx, 0, id(9), VotingResult::Like, None), Err(ErrorCode::AddressMismatch));
    assert_eq!(vote_at(&ctx, 0, id(9), VotingResult::Like, Some((id(6), 255))), Err(ErrorCode::AddressMismatch));
    let v = vote_at(&ctx, 3, id(9), VotingResult::NoVoting, Some((id(5), 200))).unwrap();
    assert_eq!(v.bump, 200);
    assert_eq!(v.result, VotingResult::NoVoting);
}

#[test]
fn vote_update_by_another_identity() {
    let user = id(1);
    let (address, bump) = vote_address(&user);
    let v = Voting { tweet: id(9), timestamp: 1, result: VotingResult::Like, bump };
    let mut ctx = UpdateVoting { program_id: program(), user: id(2), address, voting: v };
    assert_eq!(update_voting(&mut ctx, VotingResult::Dislike), Err(ErrorCode::AddressMismatch));
    assert_eq!(ctx.voting, v);
    assert_eq!(update_voting_at(&mut ctx, VotingResult::Dislike, None), Err(ErrorCode::AddressMismatch));
    assert_eq!(update_voting_at(&mut ctx, VotingResult::Dislike, Some(address)), Ok(()));
    assert_eq!(ctx.voting.result, VotingResult::Dislike);
}

#[test]
fn alias_scenario() {
    let user = id(1);
    let (address, bump) = alias_address(&user);
    let ctx = CreateUserAlias { program_id: program(), user_alias: address, user };
    let a = create_alias(&ctx, "alice".to_string()).unwrap();
    assert_eq!(a.alias, "alice");
    assert_eq!(a.bump, bump);
    let (again, again_bump) = alias_address(&user);
    assert_eq!(again, address);
    assert_eq!(again_bump, bump);
}

#[test]
fn alias_bounds_and_address() {
    let user = id(1);
    let (address, _) = alias_address(&user);
    let ctx = CreateUserAlias { program_id: program(), user_alias: address, user };
    assert_eq!(create_alias(&ctx, "a".repeat(51)), Err(ErrorCode::AliasTooLong));
    assert!(create_alias(&ctx, "a".repeat(50)).is_ok());
    let wrong = CreateUserAlias { program_id: program(), user_alias: id(4), user };
    assert_eq!(create_alias(&wrong, "alice".to_string()), Err(ErrorCode::AddressMismatch));
    assert_eq!(create_alias(&wrong, "a".repeat(51)), Err(ErrorCode::AddressMismatch));
    assert_eq!(create_alias_at(&wrong, "bob".to_string(), Some((id(4), 9))).unwrap().bump, 9);
    assert_eq!(create_alias_at(&wrong, "bob".to_string(), None), Err(ErrorCode::AddressMismatch));
}

#[test]
fn alias_updates() {
    let user = id(1);
    let (address, _) = alias_address(&user);
    let a = create_alias(&CreateUserAlias { program_id: program(), user_alias: address, user }, "alice".to_string()).unwrap();
    let mut ctx = UpdateUserAlias { program_id: program(), user, address, user_alias: a.clone() };
    assert_eq!(update_user_alias(&mut ctx, "alice".to_string()), Err(ErrorCode::NothingChanged));
    assert_eq!(update_user_alias(&mut ctx, "a".repeat(51)), Err(ErrorCode::AliasTooLong));
    assert_eq!(ctx.user_alias, a);
    assert_eq!(update_user_alias(&mut ctx, "alicia".to_string()), Ok(()));
    assert_eq!(ctx.user_alias.alias, "alicia");
    assert_eq!(ctx.user_alias.bump, a.bump);
    let mut other = UpdateUserAlias { program_id: program(), user: id(2), address, user_alias: a.clone() };
    assert_eq!(update_user_alias(&mut other, "mallory".to_string()), Err(ErrorCode::AddressMismatch));
    assert_eq!(other.user_alias, a);
    assert_eq!(update_user_alias_at(&mut other, "mallory".to_string(), Some(address)), Ok(()));
}
