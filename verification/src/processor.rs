//! The wager state machine: for each decoded operation, validates the
//! accounts and signer facts, enforces the record's lifecycle, and computes
//! every balance movement with checked arithmetic.
//!
//! The host ledger runtime stays outside this module. What it knows — who
//! signed, who owns each account, whether the record account clears the
//! rent-exemption threshold, the clock value used as entropy — is handed in
//! as plain values, and the caller applies the computed mutations only when
//! an operation returns success. Every operation checks all its
//! preconditions, in a fixed order, before touching anything: on an error,
//! every account is left exactly as it was.

use vstd::bytes::spec_u64_from_le_bytes;
use vstd::prelude::*;

use crate::error::LuckySolError;
use crate::instruction::LuckySolInstruction;
use crate::oracle;
use crate::state::{self, LuckySol, Pubkey, RECORD_LEN};

verus! {

/// A ledger account as this core sees it: its identity, the program that
/// owns it, the runtime's signer fact, its native balance, and its raw
/// storage bytes.
#[derive(Clone, Debug, PartialEq, Eq)]
pub struct Account {
    pub key: Pubkey,
    pub owner: Pubkey,
    pub is_signer: bool,
    pub lamports: u64,
    pub data: Vec<u8>,
}

/// The deployment-time allow-list of well-known identities: the shared
/// funds pool and the administrator authorized to draw from it, one of
/// each.
#[derive(Clone, Copy, Debug, PartialEq, Eq)]
pub struct Config {
    pub funds_key: Pubkey,
    pub admin_key: Pubkey,
}

/// The wager state machine.
pub struct Processor;

/// Whether `a` is owned by the program identified by `program_id`.
pub open spec fn owned_by(a: Account, program_id: Seq<u8>) -> bool {
    a.owner@ == program_id
}

/// Whether `a` and `b` agree on everything but balance and storage.
pub open spec fn same_identity(a: Account, b: Account) -> bool {
    &&& a.key == b.key
    &&& a.owner == b.owner
    &&& a.is_signer == b.is_signer
}

/// The outcome of validating a play, checks in their fixed order: signer,
/// then program ownership, then the funds identity, then bid/deposit
/// equality, then rent exemption, then the record's shape, then its
/// lifecycle state, then overflow of the pool balance.
pub open spec fn spec_play_checks(
    program_id: Seq<u8>,
    cfg: Config,
    initializer: Account,
    deposit: Account,
    record: Account,
    funds: Account,
    bid: u64,
    record_rent_exempt: bool,
) -> Result<(), LuckySolError> {
    if !initializer.is_signer {
        Err(LuckySolError::MissingRequiredSignature)
    } else if !(owned_by(deposit, program_id) && owned_by(record, program_id) && owned_by(
        funds,
        program_id,
    )) {
        Err(LuckySolError::InvalidAccountData)
    } else if funds.key@ != cfg.funds_key@ {
        Err(LuckySolError::InvalidAccountData)
    } else if bid != deposit.lamports {
        Err(LuckySolError::ExpectedAmountMismatch)
    } else if !record_rent_exempt {
        Err(LuckySolError::NotRentExempt)
    } else if !state::record_bytes_wf(record.data@) {
        Err(LuckySolError::InvalidAccountData)
    } else if record.data@[0] == 1 {
        Err(LuckySolError::AccountAlreadyInitialized)
    } else if funds.lamports + deposit.lamports > u64::MAX {
        Err(LuckySolError::AmountOverflow)
    } else {
        Ok(())
    }
}

/// How a successful play transforms the deposit, record and funds accounts:
/// the deposit's entire balance moves into the funds pool, and the record
/// is written as initialized with the player's identity, the bid, and the
/// oracle's verdict on the supplied entropy.
pub open spec fn spec_play_effect(
    initializer: Account,
    old_deposit: Account,
    new_deposit: Account,
    old_record: Account,
    new_record: Account,
    old_funds: Account,
    new_funds: Account,
    bid: u64,
    entropy: i64,
) -> bool {
    &&& new_deposit.lamports == 0
    &&& new_funds.lamports == old_funds.lamports + old_deposit.lamports
    &&& new_record.data@ == state::spec_pack(
        LuckySol {
            is_initialized: true,
            initializer_identity: initializer.key,
            bid_amount: bid,
            won: oracle::spec_decide(entropy),
        },
    )
    &&& new_record.lamports == old_record.lamports
    &&& same_identity(new_deposit, old_deposit)
    &&& new_deposit.data@ == old_deposit.data@
    &&& same_identity(new_record, old_record)
    &&& same_identity(new_funds, old_funds)
    &&& new_funds.data@ == old_funds.data@
}

/// The outcome of validating an administrator withdrawal, checks in their
/// fixed order: signer, then the pool's program ownership, then the pool
/// identity, then the administrator identity, then checked arithmetic on
/// both balances. Drawing more than the pool holds is an arithmetic
/// failure, never a silent wrap.
pub open spec fn spec_admin_withdraw_checks(
    program_id: Seq<u8>,
    cfg: Config,
    admin: Account,
    funds: Account,
    amount: u64,
) -> Result<(), LuckySolError> {
    if !admin.is_signer {
        Err(LuckySolError::MissingRequiredSignature)
    } else if !owned_by(funds, program_id) {
        Err(LuckySolError::InvalidAccountData)
    } else if funds.key@ != cfg.funds_key@ {
        Err(LuckySolError::InvalidAccountData)
    } else if admin.key@ != cfg.admin_key@ {
        Err(LuckySolError::InvalidAccountData)
    } else if amount > funds.lamports {
        Err(LuckySolError::AmountOverflow)
    } else if admin.lamports + amount > u64::MAX {
        Err(LuckySolError::AmountOverflow)
    } else {
        Ok(())
    }
}

/// How a successful administrator withdrawal transforms the two accounts:
/// exactly `amount` moves from the pool to the administrator.
pub open spec fn spec_admin_withdraw_effect(
    old_admin: Account,
    new_admin: Account,
    old_funds: Account,
    new_funds: Account,
    amount: u64,
) -> bool {
    &&& new_funds.lamports == old_funds.lamports - amount
    &&& new_admin.lamports == old_admin.lamports + amount
    &&& same_identity(new_admin, old_admin)
    &&& new_admin.data@ == old_admin.data@
    &&& same_identity(new_funds, old_funds)
    &&& new_funds.data@ == old_funds.data@
}

/// The payout owed from the funds pool on a player withdrawal against a
/// record holding the bytes `record_data`: twice the bid when the record
/// says the player won, nothing otherwise.
pub open spec fn spec_payout(record_data: Seq<u8>) -> int {
    if record_data[41] == 1 {
        2 * spec_u64_from_le_bytes(record_data.subrange(33, 41))
    } else {
        0
    }
}

/// The outcome of validating a player withdrawal, checks in their fixed
/// order: signer, then program ownership of record and funds, then the pool
/// identity, then the record's shape, then its lifecycle state (only a
/// record a play has written settles), then the initializer identity
/// stored in the record, then checked arithmetic on every balance moved.
pub open spec fn spec_player_withdraw_checks(
    program_id: Seq<u8>,
    cfg: Config,
    initializer: Account,
    record: Account,
    funds: Account,
) -> Result<(), LuckySolError> {
    if !initializer.is_signer {
        Err(LuckySolError::MissingRequiredSignature)
    } else if !(owned_by(record, program_id) && owned_by(funds, program_id)) {
        Err(LuckySolError::InvalidAccountData)
    } else if funds.key@ != cfg.funds_key@ {
        Err(LuckySolError::InvalidAccountData)
    } else if !state::record_bytes_wf(record.data@) {
        Err(LuckySolError::InvalidAccountData)
    } else if record.data@[0] != 1 {
        Err(LuckySolError::InvalidAccountData)
    } else if record.data@.subrange(1, 33) != initializer.key@ {
        Err(LuckySolError::InvalidAccountData)
    } else if funds.lamports < spec_payout(record.data@) {
        Err(LuckySolError::AmountOverflow)
    } else if initializer.lamports + spec_payout(record.data@) + record.lamports > u64::MAX {
        Err(LuckySolError::AmountOverflow)
    } else {
        Ok(())
    }
}

/// How a successful player withdrawal transforms the three accounts: the
/// payout (twice the bid on a win, nothing on a loss) moves from the pool
/// to the player, the record's entire balance moves to the player, and the
/// record's balance and storage are zeroed — the record is closed.
pub open spec fn spec_player_withdraw_effect(
    old_initializer: Account,
    new_initializer: Account,
    old_record: Account,
    new_record: Account,
    old_funds: Account,
    new_funds: Account,
) -> bool {
    &&& new_funds.lamports == old_funds.lamports - spec_payout(old_record.data@)
    &&& new_initializer.lamports == old_initializer.lamports + spec_payout(old_record.data@)
        + old_record.lamports
    &&& new_record.lamports == 0
    &&& new_record.data@ == Seq::<u8>::new(RECORD_LEN as nat, |i: int| 0u8)
    &&& same_identity(new_initializer, old_initializer)
    &&& new_initializer.data@ == old_initializer.data@
    &&& same_identity(new_record, old_record)
    &&& same_identity(new_funds, old_funds)
    &&& new_funds.data@ == old_funds.data@
}

/// The overall verdict of one submitted operation: the buffer decodes, or
/// the whole operation fails with the decode error; then the decoded
/// variant's own checks run against its accounts, taken in order from the
/// front of the account list (play: initializer, deposit, record, funds;
/// administrator withdrawal: administrator, funds; player withdrawal:
/// initializer, record, funds).
pub open spec fn spec_process_checks(
    program_id: Seq<u8>,
    cfg: Config,
    accounts: Seq<Account>,
    instruction_data: Seq<u8>,
    record_rent_exempt: bool,
) -> Result<(), LuckySolError> {
    match LuckySolInstruction::spec_unpack(instruction_data) {
        Err(e) => Err(e),
        Ok(LuckySolInstruction::Play { bid }) => spec_play_checks(
            program_id,
            cfg,
            accounts[0],
            accounts[1],
            accounts[2],
            accounts[3],
            bid,
            record_rent_exempt,
        ),
        Ok(LuckySolInstruction::AdminWithdraw { amount }) => spec_admin_withdraw_checks(
            program_id,
            cfg,
            accounts[0],
            accounts[1],
            amount,
        ),
        Ok(LuckySolInstruction::PlayerWithdraw) => spec_player_withdraw_checks(
            program_id,
            cfg,
            accounts[0],
            accounts[1],
            accounts[2],
        ),
    }
}

/// How many accounts, from the front of the list, the decoded operation
/// reads; a buffer that does not decode reads none.
pub open spec fn spec_accounts_needed(decoded: Result<LuckySolInstruction, LuckySolError>) -> int {
    match decoded {
        Ok(LuckySolInstruction::Play { .. }) => 4,
        Ok(LuckySolInstruction::AdminWithdraw { .. }) => 2,
        Ok(LuckySolInstruction::PlayerWithdraw) => 3,
        Err(_) => 0,
    }
}

/// A fresh zeroed record buffer, as a closed record's storage is left.
fn zeroed_record_bytes() -> (out: Vec<u8>)
    ensures
        out@ == Seq::<u8>::new(RECORD_LEN as nat, |i: int| 0u8),
{
    let mut out: Vec<u8> = Vec::new();
    let mut i: usize = 0;
    while i < RECORD_LEN
        invariant
            i <= RECORD_LEN,
            out@ =~= Seq::<u8>::new(i as nat, |k: int| 0u8),
        decreases RECORD_LEN - i,
    {
        out.push(0);
        proof {
            assert(out@ =~= Seq::<u8>::new((i + 1) as nat, |k: int| 0u8));
        }
        i += 1;
    }
    out
}

/// Copies a byte buffer.
fn clone_bytes(v: &Vec<u8>) -> (r: Vec<u8>)
    ensures
        r@ == v@,
{
    let r = v.clone();
    proof {
        assert(r@ =~= v@);
    }
    r
}

/// Copies an account value, so an operation can be attempted on the copy
/// and committed to the account list only on success.
fn dup_account(a: &Account) -> (r: Account)
    ensures
        same_identity(r, *a),
        r.lamports == a.lamports,
        r.data@ == a.data@,
{
    Account {
        key: a.key,
        owner: a.owner,
        is_signer: a.is_signer,
        lamports: a.lamports,
        data: clone_bytes(&a.data),
    }
}

impl Processor {
    /// Runs one submitted operation: decodes the instruction buffer and
    /// dispatches to the decoded variant, whose accounts are taken in order
    /// from the front of `accounts` (play: initializer, deposit, record,
    /// funds; administrator withdrawal: administrator, funds; player
    /// withdrawal: initializer, record, funds).
    ///
    /// The whole operation is atomic: the account list changes only when
    /// the verdict is success, and then exactly as the decoded operation's
    /// effect says; on any error it is exactly as submitted.
    ///
    /// The caller supplies at least as many accounts as the decoded
    /// operation reads — the error taxonomy has no verdict for a shorter
    /// list, so the demand stands as a precondition and the adapter around
    /// the library refuses such a submission itself.
    pub fn process(
        program_id: &Pubkey,
        cfg: &Config,
        accounts: &mut Vec<Account>,
        instruction_data: &[u8],
        record_rent_exempt: bool,
        entropy: i64,
    ) -> (r: Result<(), LuckySolError>)
        requires
            old(accounts)@.len() >= spec_accounts_needed(
                LuckySolInstruction::spec_unpack(instruction_data@),
            ),
        ensures
            r == spec_process_checks(
                program_id@,
                *cfg,
                old(accounts)@,
                instruction_data@,
                record_rent_exempt,
            ),
            final(accounts)@.len() == old(accounts)@.len(),
            r is Err ==> final(accounts)@ == old(accounts)@,
            r is Ok ==> match LuckySolInstruction::spec_unpack(instruction_data@) {
                Ok(LuckySolInstruction::Play { bid }) => spec_play_effect(
                    old(accounts)@[0],
                    old(accounts)@[1],
                    final(accounts)@[1],
                    old(accounts)@[2],
                    final(accounts)@[2],
                    old(accounts)@[3],
                    final(accounts)@[3],
                    bid,
                    entropy,
                ) && final(accounts)@[0] == old(accounts)@[0] && (forall|i: int|
                    4 <= i < old(accounts)@.len() ==> final(accounts)@[i] == old(accounts)@[i]),
                Ok(LuckySolInstruction::AdminWithdraw { amount }) => spec_admin_withdraw_effect(
                    old(accounts)@[0],
                    final(accounts)@[0],
                    old(accounts)@[1],
                    final(accounts)@[1],
                    amount,
                ) && (forall|i: int|
                    2 <= i < old(accounts)@.len() ==> final(accounts)@[i] == old(accounts)@[i]),
                Ok(LuckySolInstruction::PlayerWithdraw) => spec_player_withdraw_effect(
                    old(accounts)@[0],
                    final(accounts)@[0],
                    old(accounts)@[1],
                    final(accounts)@[1],
                    old(accounts)@[2],
                    final(accounts)@[2],
                ) && (forall|i: int|
                    3 <= i < old(accounts)@.len() ==> final(accounts)@[i] == old(accounts)@[i]),
                Err(_) => false,
            },
    {
        let instruction = match LuckySolInstruction::unpack(instruction_data) {
            Ok(ix) => ix,
            Err(e) => {
                return Err(e);
            },
        };
        match instruction {
            LuckySolInstruction::Play { bid } => {
                let mut deposit = dup_account(&accounts[1]);
                let mut record = dup_account(&accounts[2]);
                let mut funds = dup_account(&accounts[3]);
                let outcome = Self::process_play(
                    program_id,
                    cfg,
                    &accounts[0],
                    &mut deposit,
                    &mut record,
                    &mut funds,
                    bid,
                    record_rent_exempt,
                    entropy,
                );
                match outcome {
                    Ok(()) => {
                        accounts[1] = deposit;
                        accounts[2] = record;
                        accounts[3] = funds;
                        Ok(())
                    },
                    Err(e) => Err(e),
                }
            },
            LuckySolInstruction::AdminWithdraw { amount } => {
                let mut admin = dup_account(&accounts[0]);
                let mut funds = dup_account(&accounts[1]);
                let outcome = Self::process_admin_withdraw(
                    program_id,
                    cfg,
                    &mut admin,
                    &mut funds,
                    amount,
                );
                match outcome {
                    Ok(()) => {
                        accounts[0] = admin;
                        accounts[1] = funds;
                        Ok(())
                    },
                    Err(e) => Err(e),
                }
            },
            LuckySolInstruction::PlayerWithdraw => {
                let mut initializer = dup_account(&accounts[0]);
                let mut record = dup_account(&accounts[1]);
                let mut funds = dup_account(&accounts[2]);
                let outcome = Self::process_player_withdraw(
                    program_id,
                    cfg,
                    &mut initializer,
                    &mut record,
                    &mut funds,
                );
                match outcome {
                    Ok(()) => {
                        accounts[0] = initializer;
                        accounts[1] = record;
                        accounts[2] = funds;
                        Ok(())
                    },
                    Err(e) => Err(e),
                }
            },
        }
    }

    /// Play: wager the deposit account's entire balance on the oracle's
    /// verdict.
    ///
    /// Validates exactly as `spec_play_checks` says, in that order, and on
    /// success applies exactly the `spec_play_effect` transformation; on any
    /// error every account is unchanged.
    pub fn process_play(
        program_id: &Pubkey,
        cfg: &Config,
        initializer: &Account,
        deposit: &mut Account,
        record: &mut Account,
        funds: &mut Account,
        bid: u64,
        record_rent_exempt: bool,
        entropy: i64,
    ) -> (r: Result<(), LuckySolError>)
        ensures
            r == spec_play_checks(
                program_id@,
                *cfg,
                *initializer,
                *old(deposit),
                *old(record),
                *old(funds),
                bid,
                record_rent_exempt,
            ),
            r is Ok ==> spec_play_effect(
                *initializer,
                *old(deposit),
                *final(deposit),
                *old(record),
                *final(record),
                *old(funds),
                *final(funds),
                bid,
                entropy,
            ),
            r is Err ==> *final(deposit) == *old(deposit) && *final(record) == *old(record)
                && *final(funds) == *old(funds),
    {
        if !initializer.is_signer {
            return Err(LuckySolError::MissingRequiredSignature);
        }
        if !(state::pubkey_eq(&deposit.owner, program_id) && state::pubkey_eq(
            &record.owner,
            program_id,
        ) && state::pubkey_eq(&funds.owner, program_id)) {
            return Err(LuckySolError::InvalidAccountData);
        }
        if !state::pubkey_eq(&funds.key, &cfg.funds_key) {
            return Err(LuckySolError::InvalidAccountData);
        }
        if bid != deposit.lamports {
            return Err(LuckySolError::ExpectedAmountMismatch);
        }
        if !record_rent_exempt {
            return Err(LuckySolError::NotRentExempt);
        }
        let stored = match LuckySol::unpack_unchecked(record.data.as_slice()) {
            Ok(rec) => rec,
            Err(_) => {
                return Err(LuckySolError::InvalidAccountData);
            },
        };
        if stored.is_initialized {
            return Err(LuckySolError::AccountAlreadyInitialized);
        }
        let new_funds_lamports = match funds.lamports.checked_add(deposit.lamports) {
            Some(v) => v,
            None => {
                return Err(LuckySolError::AmountOverflow);
            },
        };
        let won = oracle::decide(entropy);
        let outcome = LuckySol {
            is_initialized: true,
            initializer_identity: initializer.key,
            bid_amount: bid,
            won,
        };
        record.data = outcome.pack();
        funds.lamports = new_funds_lamports;
        deposit.lamports = 0;
        Ok(())
    }

    /// AdminWithdraw: the administrator draws `amount` from the shared
    /// funds pool.
    ///
    /// Validates exactly as `spec_admin_withdraw_checks` says, in that
    /// order, and on success applies exactly the
    /// `spec_admin_withdraw_effect` transformation; on any error both
    /// accounts are unchanged.
    pub fn process_admin_withdraw(
        program_id: &Pubkey,
        cfg: &Config,
        admin: &mut Account,
        funds: &mut Account,
        amount: u64,
    ) -> (r: Result<(), LuckySolError>)
        ensures
            r == spec_admin_withdraw_checks(
                program_id@,
                *cfg,
                *old(admin),
                *old(funds),
                amount,
            ),
            r is Ok ==> spec_admin_withdraw_effect(
                *old(admin),
                *final(admin),
                *old(funds),
                *final(funds),
                amount,
            ),
            r is Err ==> *final(admin) == *old(admin) && *final(funds) == *old(funds),
    {
        if !admin.is_signer {
            return Err(LuckySolError::MissingRequiredSignature);
        }
        if !state::pubkey_eq(&funds.owner, program_id) {
            return Err(LuckySolError::InvalidAccountData);
        }
        if !state::pubkey_eq(&funds.key, &cfg.funds_key) {
            return Err(LuckySolError::InvalidAccountData);
        }
        if !state::pubkey_eq(&admin.key, &cfg.admin_key) {
            return Err(LuckySolError::InvalidAccountData);
        }
        let new_funds_lamports = match funds.lamports.checked_sub(amount) {
            Some(v) => v,
            None => {
                return Err(LuckySolError::AmountOverflow);
            },
        };
        let new_admin_lamports = match admin.lamports.checked_add(amount) {
            Some(v) => v,
            None => {
                return Err(LuckySolError::AmountOverflow);
            },
        };
        funds.lamports = new_funds_lamports;
        admin.lamports = new_admin_lamports;
        Ok(())
    }

    /// PlayerWithdraw: settle a played record in favour of its initializer
    /// and close it.
    ///
    /// Validates exactly as `spec_player_withdraw_checks` says, in that
    /// order, and on success applies exactly the
    /// `spec_player_withdraw_effect` transformation; on any error every
    /// account is unchanged.
    pub fn process_player_withdraw(
        program_id: &Pubkey,
        cfg: &Config,
        initializer: &mut Account,
        record: &mut Account,
        funds: &mut Account,
    ) -> (r: Result<(), LuckySolError>)
        ensures
            r == spec_player_withdraw_checks(
                program_id@,
                *cfg,
                *old(initializer),
                *old(record),
                *old(funds),
            ),
            r is Ok ==> spec_player_withdraw_effect(
                *old(initializer),
                *final(initializer),
                *old(record),
                *final(record),
                *old(funds),
                *final(funds),
            ),
            r is Err ==> *final(initializer) == *old(initializer) && *final(record) == *old(
                record,
            ) && *final(funds) == *old(funds),
    {
        if !initializer.is_signer {
            return Err(LuckySolError::MissingRequiredSignature);
        }
        if !(state::pubkey_eq(&record.owner, program_id) && state::pubkey_eq(
            &funds.owner,
            program_id,
        )) {
            return Err(LuckySolError::InvalidAccountData);
        }
        if !state::pubkey_eq(&funds.key, &cfg.funds_key) {
            return Err(LuckySolError::InvalidAccountData);
        }
        let stored = match LuckySol::unpack(record.data.as_slice()) {
            Ok(rec) => rec,
            Err(_) => {
                return Err(LuckySolError::InvalidAccountData);
            },
        };
        if !state::pubkey_eq(&stored.initializer_identity, &initializer.key) {
            return Err(LuckySolError::InvalidAccountData);
        }
        let payout: u64 = if stored.won {
            match stored.bid_amount.checked_mul(2) {
                Some(v) => v,
                None => {
                    return Err(LuckySolError::AmountOverflow);
                },
            }
        } else {
            0
        };
        let new_funds_lamports = match funds.lamports.checked_sub(payout) {
            Some(v) => v,
            None => {
                return Err(LuckySolError::AmountOverflow);
            },
        };
        let with_payout = match initializer.lamports.checked_add(payout) {
            Some(v) => v,
            None => {
                return Err(LuckySolError::AmountOverflow);
            },
        };
        let new_initializer_lamports = match with_payout.checked_add(record.lamports) {
            Some(v) => v,
            None => {
                return Err(LuckySolError::AmountOverflow);
            },
        };
        funds.lamports = new_funds_lamports;
        initializer.lamports = new_initializer_lamports;
        record.lamports = 0;
        record.data = zeroed_record_bytes();
        Ok(())
    }
}

/// Play precondition ordering: the signer check fires before the ownership
/// checks, which fire before the funds-identity check, then the bid/deposit
/// equality check, then the rent-exemption check, then the record-shape
/// check, and the already-initialized check comes last — each violation is
/// reported with its own error, whatever holds further down the cascade.
pub proof fn lemma_play_check_order(
    program_id: Seq<u8>,
    cfg: Config,
    initializer: Account,
    deposit: Account,
    record: Account,
    funds: Account,
    bid: u64,
    record_rent_exempt: bool,
)
    ensures
        !initializer.is_signer ==> spec_play_checks(
            program_id,
            cfg,
            initializer,
            deposit,
            record,
            funds,
            bid,
            record_rent_exempt,
        ) == Err::<(), LuckySolError>(LuckySolError::MissingRequiredSignature),
        initializer.is_signer && !(owned_by(deposit, program_id) && owned_by(record, program_id)
            && owned_by(funds, program_id)) ==> spec_play_checks(
            program_id,
            cfg,
            initializer,
            deposit,
            record,
            funds,
            bid,
            record_rent_exempt,
        ) == Err::<(), LuckySolError>(LuckySolError::InvalidAccountData),
        initializer.is_signer && owned_by(deposit, program_id) && owned_by(record, program_id)
            && owned_by(funds, program_id) && funds.key@ != cfg.funds_key@ ==> spec_play_checks(
            program_id,
            cfg,
            initializer,
            deposit,
            record,
            funds,
            bid,
            record_rent_exempt,
        ) == Err::<(), LuckySolError>(LuckySolError::InvalidAccountData),
        initializer.is_signer && owned_by(deposit, program_id) && owned_by(record, program_id)
            && owned_by(funds, program_id) && funds.key@ == cfg.funds_key@ && bid
            != deposit.lamports ==> spec_play_checks(
            program_id,
            cfg,
            initializer,
            deposit,
            record,
            funds,
            bid,
            record_rent_exempt,
        ) == Err::<(), LuckySolError>(LuckySolError::ExpectedAmountMismatch),
        initializer.is_signer && owned_by(deposit, program_id) && owned_by(record, program_id)
            && owned_by(funds, program_id) && funds.key@ == cfg.funds_key@ && bid
            == deposit.lamports && !record_rent_exempt ==> spec_play_checks(
            program_id,
            cfg,
            initializer,
            deposit,
            record,
            funds,
            bid,
            record_rent_exempt,
        ) == Err::<(), LuckySolError>(LuckySolError::NotRentExempt),
        initializer.is_signer && owned_by(deposit, program_id) && owned_by(record, program_id)
            && owned_by(funds, program_id) && funds.key@ == cfg.funds_key@ && bid
            == deposit.lamports && record_rent_exempt && state::record_bytes_wf(record.data@)
            && record.data@[0] == 1 ==> spec_play_checks(
            program_id,
            cfg,
            initializer,
            deposit,
            record,
            funds,
            bid,
            record_rent_exempt,
        ) == Err::<(), LuckySolError>(LuckySolError::AccountAlreadyInitialized),
{
}

/// Fund conservation on a play: the deposit loses exactly the bid, the
/// funds pool gains exactly the bid, and the two balances together are
/// unchanged.
pub proof fn lemma_play_conserves_funds(
    program_id: Seq<u8>,
    cfg: Config,
    initializer: Account,
    old_deposit: Account,
    new_deposit: Account,
    old_record: Account,
    new_record: Account,
    old_funds: Account,
    new_funds: Account,
    bid: u64,
    entropy: i64,
    record_rent_exempt: bool,
)
    requires
        spec_play_checks(
            program_id,
            cfg,
            initializer,
            old_deposit,
            old_record,
            old_funds,
            bid,
            record_rent_exempt,
        ) is Ok,
        spec_play_effect(
            initializer,
            old_deposit,
            new_deposit,
            old_record,
            new_record,
            old_funds,
            new_funds,
            bid,
            entropy,
        ),
    ensures
        old_deposit.lamports - new_deposit.lamports == bid,
        new_funds.lamports - old_funds.lamports == bid,
        new_deposit.lamports + new_funds.lamports == old_deposit.lamports + old_funds.lamports,
        new_record.lamports == old_record.lamports,
{
}

/// Fund conservation on a player withdrawal: on a won record exactly twice
/// the bid moves from the pool to the player, on a lost one the pool is
/// untouched; either way the player additionally receives the record's
/// entire balance, and the three balances together are unchanged.
pub proof fn lemma_player_withdraw_conserves_funds(
    program_id: Seq<u8>,
    cfg: Config,
    old_initializer: Account,
    new_initializer: Account,
    old_record: Account,
    new_record: Account,
    old_funds: Account,
    new_funds: Account,
)
    requires
        spec_player_withdraw_checks(
            program_id,
            cfg,
            old_initializer,
            old_record,
            old_funds,
        ) is Ok,
        spec_player_withdraw_effect(
            old_initializer,
            new_initializer,
            old_record,
            new_record,
            old_funds,
            new_funds,
        ),
    ensures
        old_record.data@[41] == 1 ==> old_funds.lamports - new_funds.lamports == 2
            * spec_u64_from_le_bytes(old_record.data@.subrange(33, 41)),
        old_record.data@[41] == 1 ==> new_initializer.lamports - old_initializer.lamports == 2
            * spec_u64_from_le_bytes(old_record.data@.subrange(33, 41)) + old_record.lamports,
        old_record.data@[41] != 1 ==> new_funds.lamports == old_funds.lamports
            && new_initializer.lamports - old_initializer.lamports == old_record.lamports,
        new_initializer.lamports + new_record.lamports + new_funds.lamports
            == old_initializer.lamports + old_record.lamports + old_funds.lamports,
{
}

/// Access control on the administrator withdrawal: with any funds or
/// administrator identity that is not the configured one, the operation
/// fails with `InvalidAccountData` — a valid signature notwithstanding.
pub proof fn lemma_admin_withdraw_access_control(
    program_id: Seq<u8>,
    cfg: Config,
    admin: Account,
    funds: Account,
    amount: u64,
)
    requires
        admin.is_signer,
        funds.key@ != cfg.funds_key@ || admin.key@ != cfg.admin_key@,
    ensures
        spec_admin_withdraw_checks(program_id, cfg, admin, funds, amount) == Err::<
            (),
            LuckySolError,
        >(LuckySolError::InvalidAccountData),
{
}

/// Double-play rejection: against the record a successful play has just
/// written, a second play whose earlier checks all pass is refused with
/// `AccountAlreadyInitialized` — the record's lifecycle admits one play.
pub proof fn lemma_double_play_rejected(
    program_id: Seq<u8>,
    cfg: Config,
    first_initializer: Account,
    old_deposit: Account,
    new_deposit: Account,
    old_record: Account,
    new_record: Account,
    old_funds: Account,
    new_funds: Account,
    first_bid: u64,
    entropy: i64,
    second_initializer: Account,
    second_deposit: Account,
    second_funds: Account,
    second_bid: u64,
    second_rent_exempt: bool,
)
    requires
        spec_play_effect(
            first_initializer,
            old_deposit,
            new_deposit,
            old_record,
            new_record,
            old_funds,
            new_funds,
            first_bid,
            entropy,
        ),
        second_initializer.is_signer,
        owned_by(second_deposit, program_id),
        owned_by(new_record, program_id),
        owned_by(second_funds, program_id),
        second_funds.key@ == cfg.funds_key@,
        second_bid == second_deposit.lamports,
        second_rent_exempt,
    ensures
        spec_play_checks(
            program_id,
            cfg,
            second_initializer,
            second_deposit,
            new_record,
            second_funds,
            second_bid,
            second_rent_exempt,
        ) == Err::<(), LuckySolError>(LuckySolError::AccountAlreadyInitialized),
{
    let written = LuckySol {
        is_initialized: true,
        initializer_identity: first_initializer.key,
        bid_amount: first_bid,
        won: oracle::spec_decide(entropy),
    };
    state::lemma_pack_decodes(written);
    assert(state::record_bytes_wf(new_record.data@));
    assert(new_record.data@[0] == 1);
}

} // verus!
