//! Identities of players and of partitions: the types `Owner` and `ChainId`
//! of `linera_base`.
//!
//! The rules never look inside an identity.  They compare two players,
//! read a player from text, and hand partitions on.

use linera_base::identifiers::Owner;
use vstd::prelude::*;

verus! {

/// `linera_base::identifiers::Owner`, the identity of a player, taken as
/// an opaque value.
#[verifier::external_type_specification]
#[verifier::external_body]
pub struct ExOwner(linera_base::identifiers::Owner);

/// `linera_base::identifiers::ChainId`, the identity of a partition, taken
/// as an opaque value.
#[verifier::external_type_specification]
#[verifier::external_body]
pub struct ExChainId(linera_base::identifiers::ChainId);

/// `==` on `Owner`, which `linera_base` derives: it compares the hashes
/// that the two owners hold.  Taken on trust: it is true exactly when the
/// two are the same owner.
#[verifier::external_body]
pub(crate) fn same_owner(a: &Owner, b: &Owner) -> (same: bool)
    ensures
        same == (*a == *b),
{
    a == b
}

/// The player that a text names: what `Owner::from_str` of `linera_base`
/// makes of it, or nothing where that fails.
pub uninterp spec fn parsed_owner(text: Seq<char>) -> Option<Owner>;

/// `Owner::from_str`, reached through `str::parse`, with its error
/// dropped.  Taken on trust: what it returns depends on the text alone.
#[verifier::external_body]
pub(crate) fn parse_owner(text: &str) -> (owner: Option<Owner>)
    ensures
        owner == parsed_owner(text@),
{
    text.parse::<Owner>().ok()
}

} // verus!
