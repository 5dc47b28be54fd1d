//! The wire payload of the community-pool contribution.
//!
//! Settlement hands the treasury half of the pot to the shared community
//! pool through a governance message whose payload is a protobuf-encoded
//! MsgFundCommunityPool. The encoding is a pure function of the coin and
//! the contributing address, named `fund_pool_bytes` and left
//! uninterpreted: the contracts above it promise the payload is exactly
//! the encoding of the treasury coin from the contract's own address.

use vstd::prelude::*;

verus! {

/// The protobuf encoding of a MsgFundCommunityPool holding one coin of
/// `amount` units of `denom`, contributed by `depositor`. A pure function
/// of its arguments.
pub uninterp spec fn fund_pool_bytes(denom: Seq<char>, amount: int, depositor: Seq<char>) -> Seq<
    u8,
>;

/// Relies on anybuf::Anybuf, a deterministic protobuf writer: the message
/// is a coin (denomination and decimal amount in fields 1 and 2, per the
/// cosmos Coin schema) in field 1 and the depositor address in field 2,
/// per the cosmos MsgFundCommunityPool schema. Its builder methods and
/// into_vec never fail.
#[verifier::external_body]
pub(crate) fn encode_fund_community_pool(denom: &String, amount: u128, depositor: &String) -> (r:
    Vec<u8>)
    ensures
        r@ == fund_pool_bytes(denom@, amount as int, depositor@),
{
    let coin = anybuf::Anybuf::new().append_string(1, denom).append_string(
        2,
        amount.to_string(),
    );
    anybuf::Anybuf::new().append_message(1, &coin).append_string(2, depositor).into_vec()
}

} // verus!
