//! The calls the pool accepts and the answers it returns, as plain values.

use vstd::prelude::*;
use crate::state::Coin;

verus! {

/// Who calls, what funds ride along, and what the host clock and the
/// contract's own address are at that moment.
pub struct CallInfo {
    pub sender: String,
    pub funds: Vec<Coin>,
    pub now: u64,
    pub contract_addr: String,
}

/// The three operations of the round lifecycle.
pub enum ExecuteMsg {
    CreateRound { required_stake: Coin },
    Deposit { nonce: u32 },
    Receive { job_id: String, randomness: Vec<u8> },
}

/// The read-only projections.
pub enum QueryMsg {
    Round { nonce: u32 },
    Config,
}

/// What a successful round creation reports: the allocated nonce and the
/// randomness request to dispatch — entropy to be published only after
/// `expiration`, tagged with the round's job id.
#[derive(Debug)]
pub struct CreatedRound {
    pub nonce: u32,
    pub expiration: u64,
    pub job_id: String,
}

/// What a successful deposit reports.
#[derive(Debug)]
pub struct DepositReceipt {
    pub sender: String,
    pub new_balance: u128,
}

/// What a successful settlement reports and dispatches: a direct transfer
/// of `winner_amount` in `denom` to `winner`, then a community-pool
/// contribution of `treasury_amount` whose encoded payload is `pool_msg`.
#[derive(Debug)]
pub struct SettlementReceipt {
    pub winner: String,
    pub job_id: String,
    pub winner_amount: u128,
    pub treasury_amount: u128,
    pub denom: String,
    pub pool_msg: Vec<u8>,
}

/// The outcome of one accepted operation.
#[derive(Debug)]
pub enum ExecOutcome {
    Created(CreatedRound),
    Deposited(DepositReceipt),
    Settled(SettlementReceipt),
}

/// The projection of one round.
#[derive(Debug)]
pub struct LottoResponse {
    pub nonce: u32,
    pub required_stake: Coin,
    pub balance: u128,
    pub depositors: Vec<String>,
    pub winner: Option<String>,
    pub is_expired: bool,
    pub expiration: u64,
}

/// The projection of the configuration.
#[derive(Debug)]
pub struct ConfigResponse {
    pub manager: String,
    pub oracle_address: String,
}

/// The answer to one query.
#[derive(Debug)]
pub enum QueryAnswer {
    Round(LottoResponse),
    Config(ConfigResponse),
}

} // verus!
