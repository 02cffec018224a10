//! State layer of a small social-messaging program: posts, comments, votes,
//! direct messages and per-identity aliases, with the rules that decide which
//! create and update operations are admitted, the byte layout of each record,
//! and the derivation of identity-scoped addresses.
pub mod address;
pub mod alias;
pub mod codec;
pub mod comment;
pub mod dm;
pub mod errors;
pub mod size;
pub mod tweet;
pub mod voting;
