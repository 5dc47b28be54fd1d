//! The laws the pool obeys, stated and proved once for every state.

use vstd::prelude::*;
use crate::contract::{round_created, settle_error, settlement_applied};
use crate::msgs::{CreatedRound, SettlementReceipt};
use crate::state::{has_round, round_of, state_wf, ContractState, Coin};

verus! {

/// Law: allocated round identifiers are unique — no two rounds in the
/// ledger ever share a nonce, so a nonce is never reused.
pub proof fn lemma_nonces_unique(s: ContractState)
    requires
        state_wf(s),
    ensures
        forall|i: int, j: int|
            0 <= i < j < s.rounds@.len() ==> (#[trigger] s.rounds@[i]).nonce != (
            #[trigger] s.rounds@[j]).nonce,
{
}

/// Law: every round's balance is exactly its stake amount times the number
/// of its depositors, after any sequence of accepted deposits.
pub proof fn lemma_balance_accounting(s: ContractState)
    requires
        state_wf(s),
    ensures
        forall|i: int|
            0 <= i < s.rounds@.len() ==> (#[trigger] s.rounds@[i]).balance as int == s.rounds@[i].required_stake.amount
                as int * s.rounds@[i].depositors@.len(),
{
}

/// Law: round creation allocates a fresh nonce — exactly one more than
/// the counter, so strictly increasing by one per creation — and never
/// one that any existing round carries.
pub proof fn lemma_created_nonce_fresh(
    pre: ContractState,
    post: ContractState,
    now: u64,
    stake: Coin,
    rc: CreatedRound,
)
    requires
        state_wf(pre),
        round_created(pre, post, now, stake, rc),
    ensures
        rc.nonce == pre.config.round_nonce + 1,
        forall|i: int| 0 <= i < pre.rounds@.len() ==> (#[trigger] pre.rounds@[i]).nonce != rc.nonce,
{
}

/// Law: winner selection is reproducible — two settlements fed the same
/// randomness over rounds whose depositor lists read the same, entry for
/// entry, draw the same winner.
pub proof fn lemma_winner_deterministic(
    pre1: ContractState,
    post1: ContractState,
    n1: int,
    addr1: Seq<char>,
    jid1: Seq<char>,
    rec1: SettlementReceipt,
    pre2: ContractState,
    post2: ContractState,
    n2: int,
    addr2: Seq<char>,
    jid2: Seq<char>,
    rec2: SettlementReceipt,
    randomness: Seq<u8>,
)
    requires
        settlement_applied(pre1, post1, n1, randomness, addr1, jid1, rec1),
        settlement_applied(pre2, post2, n2, randomness, addr2, jid2, rec2),
        has_round(pre1, n1),
        has_round(pre2, n2),
        round_of(pre1, n1).depositors@.len() == round_of(pre2, n2).depositors@.len(),
        forall|i: int|
            0 <= i < round_of(pre1, n1).depositors@.len() ==> (#[trigger] round_of(
                pre1,
                n1,
            ).depositors@[i])@ == round_of(pre2, n2).depositors@[i]@,
    ensures
        rec1.winner@ == rec2.winner@,
{
}

/// Law: the winner's payout and the treasury contribution together never
/// exceed the round's balance, and exhaust it exactly when the balance is
/// even — the odd unit of an odd balance is stranded, not paid.
pub proof fn lemma_payout_within_balance(
    pre: ContractState,
    post: ContractState,
    nonce: int,
    randomness: Seq<u8>,
    contract_addr: Seq<char>,
    job_id: Seq<char>,
    rec: SettlementReceipt,
)
    requires
        settlement_applied(pre, post, nonce, randomness, contract_addr, job_id, rec),
        has_round(pre, nonce),
    ensures
        rec.winner_amount + rec.treasury_amount <= round_of(pre, nonce).balance,
        round_of(pre, nonce).balance % 2 == 0 ==> rec.winner_amount + rec.treasury_amount
            == round_of(pre, nonce).balance,
{
}

/// Law: settlement assigns a winner at most once — a round that already
/// carries a winner can never satisfy the settlement guard again.
pub proof fn lemma_settle_at_most_once(s: ContractState, nonce: int)
    requires
        has_round(s, nonce),
        round_of(s, nonce).winner is Some,
    ensures
        settle_error(s, nonce) is Some,
{
}

} // verus!
