//! The round lifecycle controller and the settlement engine.
//!
//! Every operation loads nothing and writes nothing itself: it takes the
//! whole stored state by mutable reference, validates first, and mutates
//! only after every check has passed, so a rejected call leaves the state
//! exactly as it found it.

use vstd::prelude::*;
use crate::error::ContractError;
use crate::jobid::{format_job_id, job_id_of, lemma_job_id_injective, parse_job_id};
use crate::msgs::{
    CallInfo, ConfigResponse, CreatedRound, DepositReceipt, ExecOutcome, ExecuteMsg, LottoResponse,
    QueryAnswer, QueryMsg, SettlementReceipt,
};
use crate::oracle::{pick_winner, picked_from};
use crate::pool_msg::{encode_fund_community_pool, fund_pool_bytes};
use crate::state::{has_round, lotto_wf, round_of, state_wf, Coin, Config, ContractState, Lotto};

verus! {

/// How long a round stays open for deposits, in nanoseconds.
pub const ROUND_DURATION_NANOS: u64 = 300_000_000_000;

/// Sets up the singleton configuration and an empty round ledger. The
/// initializing caller becomes the manager; both addresses must already
/// have passed the host's validation.
pub fn instantiate(manager: String, oracle_address: String) -> (s: ContractState)
    ensures
        state_wf(s),
        s.config.manager@ == manager@,
        s.config.oracle_address@ == oracle_address@,
        s.config.round_nonce == 0,
        s.rounds@.len() == 0,
{
    ContractState { config: Config { manager, round_nonce: 0, oracle_address }, rounds: Vec::new() }
}

/// What a successful round creation does: it allocates the next nonce,
/// appends a fresh round, bumps the counter, and reports the nonce
/// together with the randomness request's deadline and job id.
pub open spec fn round_created(
    pre: ContractState,
    post: ContractState,
    now: u64,
    stake: Coin,
    rc: CreatedRound,
) -> bool {
    let l = post.rounds@.last();
    &&& post.config.round_nonce == pre.config.round_nonce + 1
    &&& post.config.manager == pre.config.manager
    &&& post.config.oracle_address == pre.config.oracle_address
    &&& post.rounds@.len() == pre.rounds@.len() + 1
    &&& forall|i: int| 0 <= i < pre.rounds@.len() ==> post.rounds@[i] == #[trigger] pre.rounds@[i]
    &&& l.nonce == pre.config.round_nonce + 1
    &&& l.required_stake == stake
    &&& l.balance == 0
    &&& l.depositors@.len() == 0
    &&& l.expiration == now + ROUND_DURATION_NANOS
    &&& l.winner is None
    &&& rc.nonce == pre.config.round_nonce + 1
    &&& rc.expiration == now + ROUND_DURATION_NANOS
    &&& rc.job_id@ == job_id_of((pre.config.round_nonce + 1) as nat)
}

/// Opens a new round: any caller may create one. The round expires a
/// fixed duration after `now`; the returned job id correlates the
/// randomness callback back to the allocated nonce. The caller's attached
/// funds ride along to the oracle unmodified as the randomness fee, so
/// they are no input here.
pub fn create_round(state: &mut ContractState, now: u64, required_stake: Coin) -> (r: CreatedRound)
    requires
        state_wf(*old(state)),
        old(state).config.round_nonce < u32::MAX,
        now + ROUND_DURATION_NANOS <= u64::MAX,
    ensures
        state_wf(*final(state)),
        round_created(*old(state), *final(state), now, required_stake, r),
{
    let nonce = state.config.round_nonce + 1;
    let expiration = now + ROUND_DURATION_NANOS;
    let lotto = Lotto {
        nonce,
        required_stake,
        balance: 0,
        depositors: Vec::new(),
        expiration,
        winner: None,
    };
    state.rounds.push(lotto);
    state.config.round_nonce = nonce;
    let job_id = format_job_id(nonce);
    proof {
        assert forall|i: int| 0 <= i < state.rounds@.len() implies (#[trigger] state.rounds@[i]).nonce
            as int == i + 1 && lotto_wf(state.rounds@[i]) by {
            if i < old(state).rounds@.len() {
                assert(state.rounds@[i] == old(state).rounds@[i]);
            }
        }
    }
    CreatedRound { nonce, expiration, job_id }
}

/// One attached coin settles a deposit when denomination and amount both
/// equal the round's required stake exactly.
pub open spec fn coin_matches(c: Coin, stake: Coin) -> bool {
    c.denom@ == stake.denom@ && c.amount == stake.amount
}

/// Whether any attached coin matches the required stake.
pub open spec fn payment_matches(funds: Seq<Coin>, stake: Coin) -> bool {
    exists|i: int| 0 <= i < funds.len() && coin_matches(#[trigger] funds[i], stake)
}

/// Checks the attached funds against the required stake: no funds at all,
/// funds but no exact match, or at least one exact match. However many
/// coins match, a deposit is credited exactly one stake.
pub fn validate_payment(stake: &Coin, funds: &Vec<Coin>) -> (r: Result<(), ContractError>)
    ensures
        r == (if funds@.len() == 0 {
            Err::<(), ContractError>(ContractError::NoFundsProvided)
        } else if payment_matches(funds@, *stake) {
            Ok::<(), ContractError>(())
        } else {
            Err::<(), ContractError>(ContractError::InvalidPayment)
        }),
{
    if funds.is_empty() {
        return Err(ContractError::NoFundsProvided);
    }
    let n = funds.len();
    let mut i: usize = 0;
    while i < n
        invariant
            0 <= i <= n,
            n == funds@.len(),
            forall|j: int| 0 <= j < i ==> !coin_matches(#[trigger] funds@[j], *stake),
        decreases n - i,
    {
        if funds[i].denom == stake.denom && funds[i].amount == stake.amount {
            return Ok(());
        }
        i = i + 1;
    }
    Err(ContractError::InvalidPayment)
}

/// Which error a deposit call draws, if any, in the order the checks run:
/// unknown round, closed round, empty funds, mismatched funds.
pub open spec fn deposit_error(s: ContractState, now: u64, funds: Seq<Coin>, nonce: int) -> Option<
    ContractError,
> {
    if !has_round(s, nonce) {
        Some(ContractError::NotFound)
    } else if now >= round_of(s, nonce).expiration {
        Some(ContractError::RoundExpired)
    } else if funds.len() == 0 {
        Some(ContractError::NoFundsProvided)
    } else if !payment_matches(funds, round_of(s, nonce).required_stake) {
        Some(ContractError::InvalidPayment)
    } else {
        None
    }
}

/// The machine-limit precondition of a deposit: one more stake must still
/// fit the balance's integer type.
pub open spec fn deposit_fits(s: ContractState, nonce: int) -> bool {
    has_round(s, nonce) ==> round_of(s, nonce).balance + round_of(s, nonce).required_stake.amount
        <= u128::MAX
}

/// What an accepted deposit does: exactly one stake is credited, the
/// sender is appended once as one more draw entry, and nothing else moves.
pub open spec fn deposit_applied(
    pre: ContractState,
    post: ContractState,
    sender: String,
    nonce: int,
    rec: DepositReceipt,
) -> bool {
    let l0 = round_of(pre, nonce);
    let l1 = round_of(post, nonce);
    &&& post.rounds@.len() == pre.rounds@.len()
    &&& l1.nonce == l0.nonce
    &&& l1.required_stake == l0.required_stake
    &&& l1.balance == l0.balance + l0.required_stake.amount
    &&& l1.depositors@ == l0.depositors@.push(sender)
    &&& l1.expiration == l0.expiration
    &&& l1.winner == l0.winner
    &&& forall|i: int|
        0 <= i < pre.rounds@.len() && i != nonce - 1 ==> post.rounds@[i] == #[trigger] pre.rounds@[i]
    &&& post.config == pre.config
    &&& rec.sender@ == sender@
    &&& rec.new_balance == l0.balance + l0.required_stake.amount
}

/// A deposit call either draws its error and changes nothing, or is
/// applied as `deposit_applied` says.
pub open spec fn deposit_post(
    pre: ContractState,
    post: ContractState,
    now: u64,
    sender: String,
    funds: Seq<Coin>,
    nonce: int,
    r: Result<DepositReceipt, ContractError>,
) -> bool {
    match deposit_error(pre, now, funds, nonce) {
        Some(e) => r == Err::<DepositReceipt, ContractError>(e) && post == pre,
        None => r matches Ok(rec) && deposit_applied(pre, post, sender, nonce, rec),
    }
}

/// Deposits one stake into an open round. The round must exist and still
/// be open, and the attached funds must contain at least one coin that
/// matches the required stake exactly; only that one stake is credited,
/// however much else is attached.
pub fn deposit(
    state: &mut ContractState,
    now: u64,
    sender: String,
    funds: &Vec<Coin>,
    nonce: u32,
) -> (r: Result<DepositReceipt, ContractError>)
    requires
        state_wf(*old(state)),
        deposit_fits(*old(state), nonce as int),
    ensures
        state_wf(*final(state)),
        deposit_post(*old(state), *final(state), now, sender, funds@, nonce as int, r),
{
    if nonce == 0 || nonce as usize > state.rounds.len() {
        return Err(ContractError::NotFound);
    }
    let k: usize = (nonce - 1) as usize;
    if now >= state.rounds[k].expiration {
        return Err(ContractError::RoundExpired);
    }
    match validate_payment(&state.rounds[k].required_stake, funds) {
        Err(e) => {
            return Err(e);
        },
        Ok(()) => {},
    }
    let receipt_sender = sender.clone();
    let mut l = state.rounds.remove(k);
    l.balance = l.balance + l.required_stake.amount;
    l.depositors.push(sender);
    let new_balance = l.balance;
    state.rounds.insert(k, l);
    proof {
        let ki = k as int;
        let pre = *old(state);
        assert(state.rounds@ =~= pre.rounds@.update(ki, state.rounds@[ki]));
        assert(state.rounds@[ki].balance as int == pre.rounds@[ki].balance as int
            + pre.rounds@[ki].required_stake.amount as int);
        assert forall|i: int| 0 <= i < state.rounds@.len() implies (#[trigger] state.rounds@[i]).nonce
            as int == i + 1 && lotto_wf(state.rounds@[i]) by {
            if i != ki {
                assert(state.rounds@[i] == pre.rounds@[i]);
            } else {
                let a = pre.rounds@[ki].required_stake.amount as int;
                let n0 = pre.rounds@[ki].depositors@.len() as int;
                assert(a * (n0 + 1) == a * n0 + a) by (nonlinear_arith);
            }
        }
    }
    Ok(DepositReceipt { sender: receipt_sender, new_balance })
}

/// Which error a settlement draws once the callback itself is in order:
/// unknown round, a round already settled, or a round nobody entered.
pub open spec fn settle_error(s: ContractState, nonce: int) -> Option<ContractError> {
    if !has_round(s, nonce) {
        Some(ContractError::NotFound)
    } else if round_of(s, nonce).winner is Some {
        Some(ContractError::AlreadySettled)
    } else if round_of(s, nonce).depositors@.len() == 0 {
        Some(ContractError::NoDepositors)
    } else {
        None
    }
}

/// What a settlement does: the winner is the depositor at the position
/// the randomness selects, each half of the pot is the balance rounded
/// down — an odd unit stays stranded in the pool by design — the
/// community-pool payload encodes the treasury half from the contract's
/// own address, and the round's only change is its recorded winner.
pub open spec fn settlement_applied(
    pre: ContractState,
    post: ContractState,
    nonce: int,
    randomness: Seq<u8>,
    contract_addr: Seq<char>,
    job_id: Seq<char>,
    rec: SettlementReceipt,
) -> bool {
    let l0 = round_of(pre, nonce);
    let l1 = round_of(post, nonce);
    &&& picked_from(rec.winner@, randomness, l0.depositors@)
    &&& rec.job_id@ == job_id
    &&& rec.winner_amount == l0.balance / 2
    &&& rec.treasury_amount == l0.balance / 2
    &&& rec.denom@ == l0.required_stake.denom@
    &&& rec.pool_msg@ == fund_pool_bytes(
        l0.required_stake.denom@,
        (l0.balance / 2) as int,
        contract_addr,
    )
    &&& post.rounds@.len() == pre.rounds@.len()
    &&& l1.nonce == l0.nonce
    &&& l1.required_stake == l0.required_stake
    &&& l1.balance == l0.balance
    &&& l1.depositors@ == l0.depositors@
    &&& l1.expiration == l0.expiration
    &&& l1.winner matches Some(w) && w@ == rec.winner@
    &&& forall|i: int|
        0 <= i < pre.rounds@.len() && i != nonce - 1 ==> post.rounds@[i] == #[trigger] pre.rounds@[i]
    &&& post.config == pre.config
}

/// Once the callback is authorized, well-formed and correlated to
/// `nonce`, settlement either draws its error and changes nothing, or is
/// applied as `settlement_applied` says.
pub open spec fn receive_resolved(
    pre: ContractState,
    post: ContractState,
    nonce: int,
    randomness: Seq<u8>,
    contract_addr: Seq<char>,
    job_id: Seq<char>,
    r: Result<SettlementReceipt, ContractError>,
) -> bool {
    match settle_error(pre, nonce) {
        Some(e) => r == Err::<SettlementReceipt, ContractError>(e) && post == pre,
        None => r matches Ok(rec) && settlement_applied(
            pre,
            post,
            nonce,
            randomness,
            contract_addr,
            job_id,
            rec,
        ),
    }
}

/// The whole behaviour of a randomness callback: authorization first, for
/// any payload; then the payload's shape; then the job id's correlation;
/// then settlement of the correlated round.
pub open spec fn receive_post(
    pre: ContractState,
    post: ContractState,
    sender: Seq<char>,
    contract_addr: Seq<char>,
    job_id: Seq<char>,
    randomness: Seq<u8>,
    r: Result<SettlementReceipt, ContractError>,
) -> bool {
    &&& sender != pre.config.oracle_address@ ==> r == Err::<SettlementReceipt, ContractError>(
        ContractError::UnauthorizedReceive,
    ) && post == pre
    &&& (sender == pre.config.oracle_address@ && randomness.len() != 32) ==> r == Err::<
        SettlementReceipt,
        ContractError,
    >(ContractError::InvalidRandomness) && post == pre
    &&& (sender == pre.config.oracle_address@ && randomness.len() == 32 && (forall|n: u32|
        job_id != job_id_of(n as nat))) ==> r == Err::<SettlementReceipt, ContractError>(
        ContractError::InvalidJobId,
    ) && post == pre
    &&& forall|n: u32|
        ((#[trigger] job_id_of(n as nat)) == job_id && sender == pre.config.oracle_address@
            && randomness.len() == 32) ==> receive_resolved(
            pre,
            post,
            n as int,
            randomness,
            contract_addr,
            job_id,
            r,
        )
}

/// Settles a round from the oracle's randomness callback.
///
/// Only the registered oracle may deliver entropy; the job id is read
/// back to the round it was issued for, and that round must exist, still
/// be unsettled, and have at least one depositor. On success the winner
/// is drawn from the depositors by the randomness, the pot is split
/// half-and-half rounded down, and the round records its winner forever.
pub fn execute_receive(
    state: &mut ContractState,
    sender: &String,
    contract_addr: &String,
    job_id: String,
    randomness: &Vec<u8>,
) -> (r: Result<SettlementReceipt, ContractError>)
    requires
        state_wf(*old(state)),
    ensures
        state_wf(*final(state)),
        receive_post(
            *old(state),
            *final(state),
            sender@,
            contract_addr@,
            job_id@,
            randomness@,
            r,
        ),
{
    if !(*sender == state.config.oracle_address) {
        return Err(ContractError::UnauthorizedReceive);
    }
    if randomness.len() != 32 {
        return Err(ContractError::InvalidRandomness);
    }
    let nonce = match parse_job_id(job_id.as_str()) {
        None => {
            return Err(ContractError::InvalidJobId);
        },
        Some(n) => n,
    };
    proof {
        assert forall|n: u32| (#[trigger] job_id_of(n as nat)) == job_id@ implies n == nonce by {
            lemma_job_id_injective(n as nat, nonce as nat);
        }
    }
    if nonce == 0 || nonce as usize > state.rounds.len() {
        return Err(ContractError::NotFound);
    }
    let k: usize = (nonce - 1) as usize;
    if state.rounds[k].winner.is_some() {
        return Err(ContractError::AlreadySettled);
    }
    if state.rounds[k].depositors.len() == 0 {
        return Err(ContractError::NoDepositors);
    }
    let winner = pick_winner(randomness, &state.rounds[k].depositors);
    let (winner_amount, treasury_amount) = split_pot(state.rounds[k].balance);
    let denom = state.rounds[k].required_stake.denom.clone();
    let pool_msg = encode_fund_community_pool(&denom, treasury_amount, contract_addr);
    let stored_winner = winner.clone();
    let mut l = state.rounds.remove(k);
    l.winner = Some(stored_winner);
    state.rounds.insert(k, l);
    proof {
        let ki = k as int;
        let pre = *old(state);
        assert(state.rounds@ =~= pre.rounds@.update(ki, state.rounds@[ki]));
        assert forall|i: int| 0 <= i < state.rounds@.len() implies (#[trigger] state.rounds@[i]).nonce
            as int == i + 1 && lotto_wf(state.rounds@[i]) by {
            if i != ki {
                assert(state.rounds@[i] == pre.rounds@[i]);
            }
        }
    }
    Ok(SettlementReceipt { winner, job_id, winner_amount, treasury_amount, denom, pool_msg })
}

/// Splits a pooled balance into the winner's half and the community-pool
/// half, each rounded down. An odd unit is left stranded in the pool by
/// design: it is neither paid out nor contributed.
pub fn split_pot(balance: u128) -> (r: (u128, u128))
    ensures
        r.0 == balance / 2,
        r.1 == balance / 2,
        r.0 + r.1 <= balance,
        balance % 2 == 0 ==> r.0 + r.1 == balance,
{
    (balance / 2, balance / 2)
}

/// Dispatches one call to the operation it names.
pub fn execute(state: &mut ContractState, info: CallInfo, msg: ExecuteMsg) -> (r: Result<
    ExecOutcome,
    ContractError,
>)
    requires
        state_wf(*old(state)),
        msg matches ExecuteMsg::CreateRound { required_stake } ==> old(
            state,
        ).config.round_nonce < u32::MAX && info.now + ROUND_DURATION_NANOS <= u64::MAX,
        msg matches ExecuteMsg::Deposit { nonce } ==> deposit_fits(*old(state), nonce as int),
    ensures
        state_wf(*final(state)),
        msg matches ExecuteMsg::CreateRound { required_stake } ==> (r matches Ok(o) && o matches
            ExecOutcome::Created(rc) && round_created(
            *old(state),
            *final(state),
            info.now,
            required_stake,
            rc,
        )),
        msg matches ExecuteMsg::Deposit { nonce } ==> (match r {
            Ok(o) => o matches ExecOutcome::Deposited(rec) && deposit_post(
                *old(state),
                *final(state),
                info.now,
                info.sender,
                info.funds@,
                nonce as int,
                Ok(rec),
            ),
            Err(e) => deposit_post(
                *old(state),
                *final(state),
                info.now,
                info.sender,
                info.funds@,
                nonce as int,
                Err(e),
            ),
        }),
        msg matches ExecuteMsg::Receive { job_id, randomness } ==> (match r {
            Ok(o) => o matches ExecOutcome::Settled(rec) && receive_post(
                *old(state),
                *final(state),
                info.sender@,
                info.contract_addr@,
                job_id@,
                randomness@,
                Ok(rec),
            ),
            Err(e) => receive_post(
                *old(state),
                *final(state),
                info.sender@,
                info.contract_addr@,
                job_id@,
                randomness@,
                Err(e),
            ),
        }),
{
    match msg {
        ExecuteMsg::CreateRound { required_stake } => {
            let rc = create_round(state, info.now, required_stake);
            Ok(ExecOutcome::Created(rc))
        },
        ExecuteMsg::Deposit { nonce } => {
            match deposit(state, info.now, info.sender, &info.funds, nonce) {
                Ok(rec) => Ok(ExecOutcome::Deposited(rec)),
                Err(e) => Err(e),
            }
        },
        ExecuteMsg::Receive { job_id, randomness } => {
            match execute_receive(state, &info.sender, &info.contract_addr, job_id, &randomness) {
                Ok(rec) => Ok(ExecOutcome::Settled(rec)),
                Err(e) => Err(e),
            }
        },
    }
}

/// Copies a list of addresses.
fn clone_addrs(v: &Vec<String>) -> (r: Vec<String>)
    ensures
        r@ == v@,
{
    let mut r: Vec<String> = Vec::new();
    let n = v.len();
    let mut i: usize = 0;
    while i < n
        invariant
            0 <= i <= n,
            n == v@.len(),
            r@.len() == i,
            forall|j: int| 0 <= j < i ==> r@[j] == v@[j],
        decreases n - i,
    {
        r.push(v[i].clone());
        i = i + 1;
    }
    proof {
        assert(r@ =~= v@);
    }
    r
}

/// The projection of one round, plus the derived expiry flag. Note the
/// boundary: a round at its very expiration instant no longer accepts
/// deposits but does not yet read as expired.
pub open spec fn lotto_projected(
    s: ContractState,
    now: u64,
    nonce: int,
    resp: LottoResponse,
) -> bool {
    let l = round_of(s, nonce);
    &&& resp.nonce == l.nonce
    &&& resp.required_stake.denom@ == l.required_stake.denom@
    &&& resp.required_stake.amount == l.required_stake.amount
    &&& resp.balance == l.balance
    &&& resp.depositors@ == l.depositors@
    &&& resp.winner == l.winner
    &&& resp.is_expired == (now > l.expiration)
    &&& resp.expiration == l.expiration
}

/// Projects one round for reading.
pub fn query_lotto(state: &ContractState, now: u64, nonce: u32) -> (r: Result<
    LottoResponse,
    ContractError,
>)
    ensures
        !has_round(*state, nonce as int) ==> r == Err::<LottoResponse, ContractError>(
            ContractError::NotFound,
        ),
        has_round(*state, nonce as int) ==> (r matches Ok(resp) && lotto_projected(
            *state,
            now,
            nonce as int,
            resp,
        )),
{
    if nonce == 0 || nonce as usize > state.rounds.len() {
        return Err(ContractError::NotFound);
    }
    let k: usize = (nonce - 1) as usize;
    let l = &state.rounds[k];
    let winner = match &l.winner {
        None => None,
        Some(w) => Some(w.clone()),
    };
    Ok(
        LottoResponse {
            nonce: l.nonce,
            required_stake: Coin {
                denom: l.required_stake.denom.clone(),
                amount: l.required_stake.amount,
            },
            balance: l.balance,
            depositors: clone_addrs(&l.depositors),
            winner,
            is_expired: now > l.expiration,
            expiration: l.expiration,
        },
    )
}

/// Projects the configuration for reading.
pub fn query_config(state: &ContractState) -> (r: ConfigResponse)
    ensures
        r.manager@ == state.config.manager@,
        r.oracle_address@ == state.config.oracle_address@,
{
    ConfigResponse {
        manager: state.config.manager.clone(),
        oracle_address: state.config.oracle_address.clone(),
    }
}

/// Dispatches one query to the projection it names.
pub fn query(state: &ContractState, now: u64, msg: QueryMsg) -> (r: Result<
    QueryAnswer,
    ContractError,
>)
    ensures
        msg matches QueryMsg::Round { nonce } ==> (if has_round(*state, nonce as int) {
            r matches Ok(a) && a matches QueryAnswer::Round(resp) && lotto_projected(
                *state,
                now,
                nonce as int,
                resp,
            )
        } else {
            r == Err::<QueryAnswer, ContractError>(ContractError::NotFound)
        }),
        msg matches QueryMsg::Config ==> (r matches Ok(a) && a matches QueryAnswer::Config(c)
            && c.manager@ == state.config.manager@ && c.oracle_address@
            == state.config.oracle_address@),
{
    match msg {
        QueryMsg::Round { nonce } => {
            match query_lotto(state, now, nonce) {
                Ok(resp) => Ok(QueryAnswer::Round(resp)),
                Err(e) => Err(e),
            }
        },
        QueryMsg::Config => Ok(QueryAnswer::Config(query_config(state))),
    }
}

} // verus!
