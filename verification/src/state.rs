use vstd::prelude::*;

verus! {

/// A quantity of one native token denomination.
#[derive(Debug)]
pub struct Coin {
    pub denom: String,
    pub amount: u128,
}

/// The process-wide singleton: administrator, randomness oracle, and the
/// monotonically increasing round counter. `round_nonce` is the highest
/// round identifier allocated so far; round identifiers start at 1.
pub struct Config {
    pub manager: String,
    pub round_nonce: u32,
    pub oracle_address: String,
}

/// One betting round. Created once, filled by deposits while open, and
/// mutated one final time when settlement records the winner.
pub struct Lotto {
    pub nonce: u32,
    pub required_stake: Coin,
    pub balance: u128,
    pub depositors: Vec<String>,
    pub expiration: u64,
    pub winner: Option<String>,
}

/// The whole persistent state: the singleton configuration and the round
/// ledger. The round with nonce `n` sits at index `n - 1`; rounds are never
/// deleted, so the ledger only grows.
pub struct ContractState {
    pub config: Config,
    pub rounds: Vec<Lotto>,
}

/// A round's balance is exactly one stake amount per accepted deposit.
pub open spec fn lotto_wf(l: Lotto) -> bool {
    l.balance as int == l.required_stake.amount as int * l.depositors@.len()
}

/// Well-formedness of the whole state: the counter equals the number of
/// rounds ever created, round `i + 1` sits at index `i`, and every round
/// accounts for its balance.
pub open spec fn state_wf(s: ContractState) -> bool {
    &&& s.config.round_nonce as int == s.rounds@.len()
    &&& forall|i: int| 0 <= i < s.rounds@.len() ==> (#[trigger] s.rounds@[i]).nonce as int == i + 1
    &&& forall|i: int| 0 <= i < s.rounds@.len() ==> lotto_wf(#[trigger] s.rounds@[i])
}

/// Whether a round with this nonce was ever created.
pub open spec fn has_round(s: ContractState, nonce: int) -> bool {
    1 <= nonce <= s.rounds@.len()
}

/// The round stored under this nonce.
pub open spec fn round_of(s: ContractState, nonce: int) -> Lotto
    recommends
        has_round(s, nonce),
{
    s.rounds@[nonce - 1]
}

} // verus!
