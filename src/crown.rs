use vstd::prelude::*;

use crate::error::OreError;
use crate::state::{Address, Config, Proof, ONE_MINUTE};

verus! {

// ---------------------------------------------------------------------------
// The crowning rule
// ---------------------------------------------------------------------------

/// Whether the candidate's last stake is at least one cooldown window old at `now`.
pub open spec fn cooldown_elapsed(candidate: Proof, now: i64) -> bool {
    candidate.last_stake_at + ONE_MINUTE <= now
}

/// Whether the candidate beats the record: there is no top staker yet, or the
/// incumbent handed in is the recorded top staker and the candidate's balance
/// is at least the incumbent's (a tie goes to the candidate).
pub open spec fn qualifies(config: Config, incumbent_key: Address, incumbent: Proof, candidate: Proof) -> bool {
    match config.top_staker {
        None => true,
        Some(top) => top@ == incumbent_key@ && candidate.balance >= incumbent.balance,
    }
}

/// The record after `candidate_key` is crowned with the balance of `candidate`.
pub open spec fn crowned(candidate_key: Address, candidate: Proof) -> Config {
    Config { top_staker: Some(candidate_key), max_stake: candidate.balance }
}

/// The record after one crowning attempt, and the attempt's outcome.
pub open spec fn crown_step(
    config: Config,
    incumbent_key: Address,
    incumbent: Proof,
    candidate_key: Address,
    candidate: Proof,
    now: i64,
) -> (Config, Result<(), OreError>) {
    if !cooldown_elapsed(candidate, now) {
        (config, Err(OreError::CannotCrown))
    } else if qualifies(config, incumbent_key, incumbent, candidate) {
        (crowned(candidate_key, candidate), Ok(()))
    } else {
        (config, Ok(()))
    }
}

/// Whether `candidate` is past its cooldown at the Unix time `now`.
pub fn can_crown(candidate: &Proof, now: i64) -> (r: bool)
    ensures
        r == cooldown_elapsed(*candidate, now),
{
    (candidate.last_stake_at as i128) + (ONE_MINUTE as i128) <= now as i128
}

/// Offers the crown to `candidate` (the `Proof` stored under `candidate_key`).
///
/// `incumbent` is the `Proof` stored under `incumbent_key`, which the caller
/// hands in as the current top staker; it is read only when `config` records
/// one. A candidate still in its cooldown is refused with `CannotCrown`. Every
/// other attempt succeeds: it crowns the candidate where it qualifies and
/// leaves `config` as it was otherwise.
pub fn crown(
    config: &mut Config,
    incumbent_key: &Address,
    incumbent: &Proof,
    candidate_key: &Address,
    candidate: &Proof,
    now: i64,
) -> (r: Result<(), OreError>)
    ensures
        *final(config) == crown_step(*old(config), *incumbent_key, *incumbent, *candidate_key, *candidate, now).0,
        r == crown_step(*old(config), *incumbent_key, *incumbent, *candidate_key, *candidate, now).1,
{
    if !can_crown(candidate, now) {
        return Err(OreError::CannotCrown);
    }
    match config.top_staker {
        Some(top) => {
            if !top.same_as(incumbent_key) {
                return Ok(());
            }
            if candidate.balance < incumbent.balance {
                return Ok(());
            }
        },
        None => {},
    }
    config.max_stake = candidate.balance;
    config.top_staker = Some(*candidate_key);
    Ok(())
}

// ---------------------------------------------------------------------------
// Account gates and the instruction
// ---------------------------------------------------------------------------

/// What an account's data was read as.
#[derive(Debug, Clone, Copy)]
pub enum AccountData {
    /// A well-formed `Config` record of this program.
    Config(Config),
    /// A well-formed `Proof` record of this program.
    Proof(Proof),
    /// Anything else: empty, owned by another program, or of another layout.
    Invalid,
}

/// One account handed to an instruction: its identity, its permissions in the
/// transaction, and its data.
#[derive(Debug, Clone, Copy)]
pub struct AccountRecord {
    pub key: Address,
    pub is_signer: bool,
    pub is_writable: bool,
    pub data: AccountData,
}

/// Why an instruction was rejected.
#[derive(Debug, Clone, Copy, PartialEq, Eq)]
pub enum CrownError {
    /// The instruction was not given the accounts it takes.
    NotEnoughAccountKeys,
    /// The account that must sign did not.
    MissingRequiredSignature,
    /// An account is not a record of the expected kind, or is not writable
    /// where it must be.
    InvalidAccountData,
    /// A failure of the program's own taxonomy.
    Ore(OreError),
}

/// What the signer gate returns for `info`.
pub open spec fn signer_check(info: AccountRecord) -> Result<(), CrownError> {
    if info.is_signer {
        Ok(())
    } else {
        Err(CrownError::MissingRequiredSignature)
    }
}

/// What the config gate returns for `info`, asked for write access or not.
pub open spec fn config_check(info: AccountRecord, is_writable: bool) -> Result<Config, CrownError> {
    match info.data {
        AccountData::Config(config) => if is_writable && !info.is_writable {
            Err(CrownError::InvalidAccountData)
        } else {
            Ok(config)
        },
        _ => Err(CrownError::InvalidAccountData),
    }
}

/// What the proof gate returns for `info`, asked for write access or not.
pub open spec fn proof_check(info: AccountRecord, is_writable: bool) -> Result<Proof, CrownError> {
    match info.data {
        AccountData::Proof(proof) => if is_writable && !info.is_writable {
            Err(CrownError::InvalidAccountData)
        } else {
            Ok(proof)
        },
        _ => Err(CrownError::InvalidAccountData),
    }
}

/// Checks that `info` signed the transaction.
pub fn load_signer(info: &AccountRecord) -> (r: Result<(), CrownError>)
    ensures
        r == signer_check(*info),
{
    if info.is_signer {
        Ok(())
    } else {
        Err(CrownError::MissingRequiredSignature)
    }
}

/// Reads `info` as the `Config` record, writable if `is_writable` asks for it.
pub fn load_config(info: &AccountRecord, is_writable: bool) -> (r: Result<Config, CrownError>)
    ensures
        r == config_check(*info, is_writable),
{
    match info.data {
        AccountData::Config(config) => {
            if is_writable && !info.is_writable {
                Err(CrownError::InvalidAccountData)
            } else {
                Ok(config)
            }
        },
        _ => Err(CrownError::InvalidAccountData),
    }
}

/// Reads `info` as the `Proof` record of any participant, writable if
/// `is_writable` asks for it.
pub fn load_any_proof(info: &AccountRecord, is_writable: bool) -> (r: Result<Proof, CrownError>)
    ensures
        r == proof_check(*info, is_writable),
{
    match info.data {
        AccountData::Proof(proof) => {
            if is_writable && !info.is_writable {
                Err(CrownError::InvalidAccountData)
            } else {
                Ok(proof)
            }
        },
        _ => Err(CrownError::InvalidAccountData),
    }
}

/// The accounts after the crown instruction, and its outcome.
///
/// The accounts are, in order: the signer, the `Config` record, the `Proof` of
/// the current top staker, and the candidate's `Proof`. The gates run in that
/// order, then the cooldown; the incumbent is read only when a top staker is
/// recorded. Only the `Config` record can change.
pub open spec fn crown_instruction(accounts: Seq<AccountRecord>, now: i64) -> (
    Seq<AccountRecord>,
    Result<(), CrownError>,
) {
    if accounts.len() != 4 {
        (accounts, Err(CrownError::NotEnoughAccountKeys))
    } else if signer_check(accounts[0]) is Err {
        (accounts, Err(CrownError::MissingRequiredSignature))
    } else if config_check(accounts[1], true) is Err {
        (accounts, Err(CrownError::InvalidAccountData))
    } else if proof_check(accounts[3], false) is Err {
        (accounts, Err(CrownError::InvalidAccountData))
    } else {
        let config = config_check(accounts[1], true)->Ok_0;
        let candidate = proof_check(accounts[3], false)->Ok_0;
        if !cooldown_elapsed(candidate, now) {
            (accounts, Err(CrownError::Ore(OreError::CannotCrown)))
        } else if config.top_staker is Some && proof_check(accounts[2], false) is Err {
            (accounts, Err(CrownError::InvalidAccountData))
        } else {
            let incumbent = match proof_check(accounts[2], false) {
                Ok(proof) => proof,
                Err(_) => Proof { balance: 0, last_stake_at: 0 },
            };
            let next = crown_step(config, accounts[2].key, incumbent, accounts[3].key, candidate, now).0;
            (
                accounts.update(1, AccountRecord { data: AccountData::Config(next), ..accounts[1] }),
                Ok(()),
            )
        }
    }
}

/// The crown instruction: flags the candidate as the top staker where its
/// balance is at least that of the last known top staker.
///
/// `accounts` holds the signer, the `Config` record, the current top staker's
/// `Proof` and the candidate's `Proof`, in that order; `now` is the Unix time
/// of the cluster clock. The instruction data is not read.
pub fn process_crown(
    _program_id: &Address,
    accounts: &mut Vec<AccountRecord>,
    _data: &[u8],
    now: i64,
) -> (r: Result<(), CrownError>)
    ensures
        final(accounts)@ == crown_instruction(old(accounts)@, now).0,
        r == crown_instruction(old(accounts)@, now).1,
{
    if accounts.len() != 4 {
        return Err(CrownError::NotEnoughAccountKeys);
    }
    if let Err(e) = load_signer(&accounts[0]) {
        return Err(e);
    }
    let mut config = match load_config(&accounts[1], true) {
        Ok(config) => config,
        Err(e) => return Err(e),
    };
    let candidate = match load_any_proof(&accounts[3], false) {
        Ok(proof) => proof,
        Err(e) => return Err(e),
    };
    if !can_crown(&candidate, now) {
        return Err(CrownError::Ore(OreError::CannotCrown));
    }
    let incumbent = match load_any_proof(&accounts[2], false) {
        Ok(proof) => proof,
        Err(e) => {
            if config.top_staker.is_some() {
                return Err(e);
            }
            Proof { balance: 0, last_stake_at: 0 }
        },
    };
    let incumbent_key = accounts[2].key;
    let candidate_key = accounts[3].key;
    let outcome = crown(&mut config, &incumbent_key, &incumbent, &candidate_key, &candidate, now);
    if let Err(e) = outcome {
        return Err(CrownError::Ore(e));
    }
    let updated = AccountRecord { data: AccountData::Config(config), ..accounts[1] };
    accounts.set(1, updated);
    Ok(())
}

// ---------------------------------------------------------------------------
// Laws of the crowning rule
// ---------------------------------------------------------------------------

/// A candidate whose last stake is less than one cooldown window old is
/// refused with `CannotCrown`, and the record stays as it was.
pub proof fn lemma_crown_refused_in_cooldown(
    config: Config,
    incumbent_key: Address,
    incumbent: Proof,
    candidate_key: Address,
    candidate: Proof,
    now: i64,
)
    requires
        candidate.last_stake_at + ONE_MINUTE > now,
    ensures
        crown_step(config, incumbent_key, incumbent, candidate_key, candidate, now) == (
        config,
        Err::<(), OreError>(OreError::CannotCrown)),
{
}

/// With no top staker recorded, a candidate past its cooldown is crowned with
/// its balance, whatever incumbent is handed in.
pub proof fn lemma_crown_without_top_staker(
    config: Config,
    incumbent_key: Address,
    incumbent: Proof,
    candidate_key: Address,
    candidate: Proof,
    now: i64,
)
    requires
        config.top_staker is None,
        cooldown_elapsed(candidate, now),
    ensures
        crown_step(config, incumbent_key, incumbent, candidate_key, candidate, now) == (
        Config { top_staker: Some(candidate_key), max_stake: candidate.balance },
        Ok::<(), OreError>(())),
{
}

/// Against the recorded top staker, a candidate past its cooldown with a
/// smaller balance succeeds and leaves the record as it was.
pub proof fn lemma_crown_smaller_balance_keeps_record(
    config: Config,
    incumbent_key: Address,
    incumbent: Proof,
    candidate_key: Address,
    candidate: Proof,
    now: i64,
)
    requires
        config.top_staker matches Some(top) && top@ == incumbent_key@,
        cooldown_elapsed(candidate, now),
        candidate.balance < incumbent.balance,
    ensures
        crown_step(config, incumbent_key, incumbent, candidate_key, candidate, now) == (
        config,
        Ok::<(), OreError>(())),
{
}

/// Against the recorded top staker, a candidate past its cooldown with an
/// equal or larger balance is crowned with its balance.
pub proof fn lemma_crown_larger_or_equal_balance_wins(
    config: Config,
    incumbent_key: Address,
    incumbent: Proof,
    candidate_key: Address,
    candidate: Proof,
    now: i64,
)
    requires
        config.top_staker matches Some(top) && top@ == incumbent_key@,
        cooldown_elapsed(candidate, now),
        candidate.balance >= incumbent.balance,
    ensures
        crown_step(config, incumbent_key, incumbent, candidate_key, candidate, now) == (
        Config { top_staker: Some(candidate_key), max_stake: candidate.balance },
        Ok::<(), OreError>(())),
{
}

/// An incumbent handed in under another identity than the recorded top staker
/// makes the attempt succeed with the record unchanged, whatever the balances.
pub proof fn lemma_crown_mismatched_incumbent_is_ignored(
    config: Config,
    incumbent_key: Address,
    incumbent: Proof,
    candidate_key: Address,
    candidate: Proof,
    now: i64,
)
    requires
        config.top_staker matches Some(top) && top@ != incumbent_key@,
        cooldown_elapsed(candidate, now),
    ensures
        crown_step(config, incumbent_key, incumbent, candidate_key, candidate, now) == (
        config,
        Ok::<(), OreError>(())),
{
}

/// Crowning is idempotent: a second attempt right after the first, with the
/// same inputs, leaves the record where the first one left it and has the same
/// outcome. So does a second attempt that hands in, as the incumbent, the
/// candidate that the first attempt crowned.
pub proof fn lemma_crown_idempotent(
    config: Config,
    incumbent_key: Address,
    incumbent: Proof,
    candidate_key: Address,
    candidate: Proof,
    now: i64,
)
    ensures
        crown_step(
            crown_step(config, incumbent_key, incumbent, candidate_key, candidate, now).0,
            incumbent_key,
            incumbent,
            candidate_key,
            candidate,
            now,
        ) == crown_step(config, incumbent_key, incumbent, candidate_key, candidate, now),
        crown_step(config, incumbent_key, incumbent, candidate_key, candidate, now).0
            == crowned(candidate_key, candidate) ==> crown_step(
            crowned(candidate_key, candidate),
            candidate_key,
            candidate,
            candidate_key,
            candidate,
            now,
        ) == crown_step(config, incumbent_key, incumbent, candidate_key, candidate, now),
{
}

} // verus!
