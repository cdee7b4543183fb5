//! The settlement engine: validates accounts against the persisted escrow
//! record, derives the custody authority, and performs the lifecycle
//! transitions of the three operations.
//!
//! Every operation validates all of its preconditions before the first
//! mutation, so a refused operation leaves every account exactly as it was —
//! the all-or-nothing guarantee the host's transaction semantics would
//! otherwise have to provide.
use vstd::prelude::*;

use crate::KEY_LEN;
use crate::accounts::{CancelAccounts, ExchangeAccounts, InitAccounts, OpAccounts};
use crate::authority::{
    custody_authority, derive_custody_authority, spec_token_ledger_id, token_ledger_id,
};
use crate::bytes::{bytes_eq, clone_bytes};
use crate::error::EscrowError;
use crate::instruction::{
    EscrowInstruction, TAG_EXCHANGE, TAG_INIT, TAG_WITHDRAW, lemma_wire_round_trip, valid_wire,
    wire_amount_x, wire_amount_y, wire_pass,
};
use crate::state::{
    EscrowState, lemma_record_fields, record_custody, record_expected, record_initializer,
    record_is_initialized, record_receiving, valid_record_bytes,
};

verus! {

/// The settlement engine. All state lives in the accounts it is handed.
pub struct Processor;

/// The record a successful initiation persists.
pub open spec fn init_record(a: InitAccounts, amount_x: u64, amount_y: u64) -> EscrowState {
    EscrowState {
        is_initialized: true,
        initializer_pubkey: a.initializer.key,
        temp_token_account_pubkey: a.temp_token.key,
        initializer_token_to_recive_account: a.token_to_receive.key,
        expected_amount: amount_y,
        giving_amount: amount_x,
    }
}

/// The first precondition an initiation violates, in the engine's fail-fast
/// order, or `None` when the operation succeeds.
pub open spec fn init_error(a: InitAccounts, pass: Seq<u8>, program_id: Seq<u8>) -> Option<
    EscrowError,
> {
    if !a.initializer.is_signer {
        Some(EscrowError::MissingSignature)
    } else if a.token_to_receive.owner@ != spec_token_ledger_id() {
        Some(EscrowError::IncorrectOwner)
    } else if a.escrow.lamports < a.rent_minimum {
        Some(EscrowError::NotRentExempt)
    } else if !valid_record_bytes(a.escrow.data@) {
        Some(EscrowError::MalformedInstruction)
    } else if record_is_initialized(a.escrow.data@) {
        Some(EscrowError::AlreadyInitialized)
    } else if custody_authority(pass, program_id) is None {
        Some(EscrowError::ExternalLedgerError)
    } else if a.temp_token.authority@ != a.initializer.key@ {
        Some(EscrowError::ExternalLedgerError)
    } else {
        None
    }
}

/// How a successful initiation changes the accounts: custody of the locked
/// asset moves to the derived authority, the record is persisted with the
/// supplied identities and amounts, and nothing else changes.
pub open spec fn init_transition(
    pre: InitAccounts,
    post: InitAccounts,
    amount_x: u64,
    amount_y: u64,
    pass: Seq<u8>,
    program_id: Seq<u8>,
) -> bool {
    &&& post.temp_token.authority@ == custody_authority(pass, program_id)->Some_0
    &&& post.temp_token.key == pre.temp_token.key
    &&& post.temp_token.amount == pre.temp_token.amount
    &&& post.temp_token.lamports == pre.temp_token.lamports
    &&& post.escrow.data@ == init_record(pre, amount_x, amount_y).spec_pack()
    &&& post.escrow.key == pre.escrow.key
    &&& post.escrow.is_signer == pre.escrow.is_signer
    &&& post.escrow.lamports == pre.escrow.lamports
    &&& post.escrow.owner == pre.escrow.owner
    &&& post.initializer == pre.initializer
    &&& post.token_to_receive == pre.token_to_receive
    &&& post.rent_minimum == pre.rent_minimum
}

/// The first precondition a settlement violates, in the engine's fail-fast
/// order, or `None` when the swap settles.
pub open spec fn exchange_error(a: ExchangeAccounts, pass: Seq<u8>, program_id: Seq<u8>) -> Option<
    EscrowError,
> {
    let d = a.escrow.data@;
    if !a.taker.is_signer {
        Some(EscrowError::MissingSignature)
    } else if !valid_record_bytes(d) {
        Some(EscrowError::MalformedInstruction)
    } else if record_custody(d) != a.custody.key@ {
        Some(EscrowError::AccountMismatch)
    } else if record_initializer(d) != a.initializer_main.key@ {
        Some(EscrowError::AccountMismatch)
    } else if record_receiving(d) != a.initializers_receiving.key@ {
        Some(EscrowError::AccountMismatch)
    } else if custody_authority(pass, program_id) is None {
        Some(EscrowError::ExternalLedgerError)
    } else if a.takers_sending.authority@ != a.taker.key@ {
        Some(EscrowError::ExternalLedgerError)
    } else if a.takers_sending.amount < record_expected(d) {
        Some(EscrowError::ExternalLedgerError)
    } else if a.initializers_receiving.amount + record_expected(d) > u64::MAX {
        Some(EscrowError::ArithmeticOverflow)
    } else if a.custody.authority@ != custody_authority(pass, program_id)->Some_0 {
        Some(EscrowError::ExternalLedgerError)
    } else if a.takers_receiving.amount + a.custody.amount > u64::MAX {
        Some(EscrowError::ArithmeticOverflow)
    } else if a.initializer_main.lamports + a.custody.lamports + a.escrow.lamports > u64::MAX {
        Some(EscrowError::ArithmeticOverflow)
    } else {
        None
    }
}

/// How a successful settlement changes the accounts, as one atomic unit: the
/// expected amount of asset Y moves from the taker to the initiator's
/// receiving account; the custody account's entire balance of asset X moves
/// to the taker; the custody account closes; the record account is zeroed and
/// closed; both reserved balances are credited to the initiator.
pub open spec fn exchange_transition(
    pre: ExchangeAccounts,
    post: ExchangeAccounts,
    pass: Seq<u8>,
    program_id: Seq<u8>,
) -> bool {
    let expected = record_expected(pre.escrow.data@);
    &&& post.taker == pre.taker
    &&& post.takers_sending.amount == pre.takers_sending.amount - expected
    &&& post.takers_sending.key == pre.takers_sending.key
    &&& post.takers_sending.authority == pre.takers_sending.authority
    &&& post.takers_sending.lamports == pre.takers_sending.lamports
    &&& post.initializers_receiving.amount == pre.initializers_receiving.amount + expected
    &&& post.initializers_receiving.key == pre.initializers_receiving.key
    &&& post.initializers_receiving.authority == pre.initializers_receiving.authority
    &&& post.initializers_receiving.lamports == pre.initializers_receiving.lamports
    &&& post.takers_receiving.amount == pre.takers_receiving.amount + pre.custody.amount
    &&& post.takers_receiving.key == pre.takers_receiving.key
    &&& post.takers_receiving.authority == pre.takers_receiving.authority
    &&& post.takers_receiving.lamports == pre.takers_receiving.lamports
    &&& post.custody.amount == 0
    &&& post.custody.lamports == 0
    &&& post.custody.key == pre.custody.key
    &&& post.custody.authority == pre.custody.authority
    &&& post.initializer_main.lamports == pre.initializer_main.lamports + pre.custody.lamports
        + pre.escrow.lamports
    &&& post.initializer_main.key == pre.initializer_main.key
    &&& post.initializer_main.is_signer == pre.initializer_main.is_signer
    &&& post.initializer_main.owner == pre.initializer_main.owner
    &&& post.initializer_main.data == pre.initializer_main.data
    &&& post.escrow.lamports == 0
    &&& post.escrow.data@.len() == 0
    &&& post.escrow.key == pre.escrow.key
    &&& post.escrow.is_signer == pre.escrow.is_signer
    &&& post.escrow.owner == pre.escrow.owner
}

/// The first precondition a cancellation violates, in the engine's fail-fast
/// order, or `None` when the reclaim succeeds.
pub open spec fn cancel_error(a: CancelAccounts, pass: Seq<u8>, program_id: Seq<u8>) -> Option<
    EscrowError,
> {
    let d = a.escrow.data@;
    if !a.initializer.is_signer {
        Some(EscrowError::MissingSignature)
    } else if !valid_record_bytes(d) {
        Some(EscrowError::MalformedInstruction)
    } else if !record_is_initialized(d) {
        Some(EscrowError::AccountMismatch)
    } else if record_initializer(d) != a.initializer.key@ {
        Some(EscrowError::AccountMismatch)
    } else if record_custody(d) != a.custody.key@ {
        Some(EscrowError::AccountMismatch)
    } else if custody_authority(pass, program_id) is None {
        Some(EscrowError::ExternalLedgerError)
    } else if a.custody.authority@ != custody_authority(pass, program_id)->Some_0 {
        Some(EscrowError::ExternalLedgerError)
    } else if a.initializer_receiving.amount + a.custody.amount > u64::MAX {
        Some(EscrowError::ArithmeticOverflow)
    } else if a.initializer.lamports + a.custody.lamports + a.escrow.lamports > u64::MAX {
        Some(EscrowError::ArithmeticOverflow)
    } else {
        None
    }
}

/// How a successful cancellation changes the accounts: the custody account's
/// entire balance of asset X returns to the initiator's destination account,
/// the custody account closes, the record account is zeroed and closed, and
/// both reserved balances are credited to the initiator.
pub open spec fn cancel_transition(
    pre: CancelAccounts,
    post: CancelAccounts,
    pass: Seq<u8>,
    program_id: Seq<u8>,
) -> bool {
    &&& post.initializer_receiving.amount == pre.initializer_receiving.amount + pre.custody.amount
    &&& post.initializer_receiving.key == pre.initializer_receiving.key
    &&& post.initializer_receiving.authority == pre.initializer_receiving.authority
    &&& post.initializer_receiving.lamports == pre.initializer_receiving.lamports
    &&& post.custody.amount == 0
    &&& post.custody.lamports == 0
    &&& post.custody.key == pre.custody.key
    &&& post.custody.authority == pre.custody.authority
    &&& post.initializer.lamports == pre.initializer.lamports + pre.custody.lamports
        + pre.escrow.lamports
    &&& post.initializer.key == pre.initializer.key
    &&& post.initializer.is_signer == pre.initializer.is_signer
    &&& post.initializer.owner == pre.initializer.owner
    &&& post.initializer.data == pre.initializer.data
    &&& post.escrow.lamports == 0
    &&& post.escrow.data@.len() == 0
    &&& post.escrow.key == pre.escrow.key
    &&& post.escrow.is_signer == pre.escrow.is_signer
    &&& post.escrow.owner == pre.escrow.owner
}

impl Processor {
    /// Initiate: place the locked asset under the derived custody authority
    /// and persist the escrow record. Fails fast on the first violated
    /// precondition with no account changed; succeeds exactly when
    /// `init_error` is `None`.
    pub fn process_init_escrow(
        program_id: &Vec<u8>,
        accounts: &mut InitAccounts,
        amount_x: u64,
        amount_y: u64,
        pass: &Vec<u8>,
    ) -> (r: Result<(), EscrowError>)
        requires
            old(accounts).wf(),
            pass@.len() == KEY_LEN,
            program_id@.len() == KEY_LEN,
        ensures
            match init_error(*old(accounts), pass@, program_id@) {
                Some(e) => r == Err::<(), EscrowError>(e) && *final(accounts) == *old(accounts),
                None => r == Ok::<(), EscrowError>(()) && init_transition(
                    *old(accounts),
                    *final(accounts),
                    amount_x,
                    amount_y,
                    pass@,
                    program_id@,
                ),
            },
            final(accounts).wf(),
    {
        if !accounts.initializer.is_signer {
            return Err(EscrowError::MissingSignature);
        }
        let ledger_id = token_ledger_id();
        if !bytes_eq(accounts.token_to_receive.owner.as_slice(), ledger_id.as_slice()) {
            return Err(EscrowError::IncorrectOwner);
        }
        if accounts.escrow.lamports < accounts.rent_minimum {
            return Err(EscrowError::NotRentExempt);
        }
        let record = match EscrowState::unpack(&accounts.escrow.data) {
            Ok(st) => st,
            Err(e) => return Err(e),
        };
        if record.is_initialized {
            return Err(EscrowError::AlreadyInitialized);
        }
        let authority = match derive_custody_authority(pass, program_id) {
            Some(k) => k,
            None => return Err(EscrowError::ExternalLedgerError),
        };
        if !bytes_eq(
            accounts.temp_token.authority.as_slice(),
            accounts.initializer.key.as_slice(),
        ) {
            return Err(EscrowError::ExternalLedgerError);
        }
        // Hand custody of the locked asset to the derived authority.
        accounts.temp_token.authority = authority;
        // Persist the record.
        let new_record = EscrowState {
            is_initialized: true,
            initializer_pubkey: clone_bytes(&accounts.initializer.key),
            temp_token_account_pubkey: clone_bytes(&accounts.temp_token.key),
            initializer_token_to_recive_account: clone_bytes(&accounts.token_to_receive.key),
            expected_amount: amount_y,
            giving_amount: amount_x,
        };
        proof {
            assert(new_record.spec_pack() =~= init_record(*old(accounts), amount_x,
            amount_y).spec_pack());
        }
        accounts.escrow.data = new_record.pack();
        Ok(())
    }

    /// Exchange: settle the swap as one atomic unit. Fails fast on the first
    /// violated precondition with no account changed — in particular, an
    /// identity mismatch against the record causes no transfer at all;
    /// succeeds exactly when `exchange_error` is `None`.
    pub fn exchange_token(
        program_id: &Vec<u8>,
        accounts: &mut ExchangeAccounts,
        pass: &Vec<u8>,
    ) -> (r: Result<(), EscrowError>)
        requires
            old(accounts).wf(),
            pass@.len() == KEY_LEN,
            program_id@.len() == KEY_LEN,
        ensures
            match exchange_error(*old(accounts), pass@, program_id@) {
                Some(e) => r == Err::<(), EscrowError>(e) && *final(accounts) == *old(accounts),
                None => r == Ok::<(), EscrowError>(()) && exchange_transition(
                    *old(accounts),
                    *final(accounts),
                    pass@,
                    program_id@,
                ),
            },
            final(accounts).wf(),
    {
        if !accounts.taker.is_signer {
            return Err(EscrowError::MissingSignature);
        }
        let record = match EscrowState::unpack(&accounts.escrow.data) {
            Ok(st) => st,
            Err(e) => return Err(e),
        };
        if !bytes_eq(
            record.temp_token_account_pubkey.as_slice(),
            accounts.custody.key.as_slice(),
        ) {
            return Err(EscrowError::AccountMismatch);
        }
        if !bytes_eq(
            record.initializer_pubkey.as_slice(),
            accounts.initializer_main.key.as_slice(),
        ) {
            return Err(EscrowError::AccountMismatch);
        }
        if !bytes_eq(
            record.initializer_token_to_recive_account.as_slice(),
            accounts.initializers_receiving.key.as_slice(),
        ) {
            return Err(EscrowError::AccountMismatch);
        }
        let authority = match derive_custody_authority(pass, program_id) {
            Some(k) => k,
            None => return Err(EscrowError::ExternalLedgerError),
        };
        if !bytes_eq(accounts.takers_sending.authority.as_slice(), accounts.taker.key.as_slice()) {
            return Err(EscrowError::ExternalLedgerError);
        }
        let expected = record.expected_amount;
        if accounts.takers_sending.amount < expected {
            return Err(EscrowError::ExternalLedgerError);
        }
        if accounts.initializers_receiving.amount > u64::MAX - expected {
            return Err(EscrowError::ArithmeticOverflow);
        }
        if !bytes_eq(accounts.custody.authority.as_slice(), authority.as_slice()) {
            return Err(EscrowError::ExternalLedgerError);
        }
        if accounts.takers_receiving.amount > u64::MAX - accounts.custody.amount {
            return Err(EscrowError::ArithmeticOverflow);
        }
        if accounts.custody.lamports > u64::MAX - accounts.initializer_main.lamports {
            return Err(EscrowError::ArithmeticOverflow);
        }
        if accounts.escrow.lamports > u64::MAX - accounts.initializer_main.lamports
            - accounts.custody.lamports {
            return Err(EscrowError::ArithmeticOverflow);
        }
        // 1. Move the expected amount of asset Y from the taker's source to
        //    the initiator's receiving account.
        accounts.takers_sending.amount = accounts.takers_sending.amount - expected;
        accounts.initializers_receiving.amount = accounts.initializers_receiving.amount + expected;
        // 2. Move the custody account's entire balance of asset X to the
        //    taker's destination account.
        accounts.takers_receiving.amount = accounts.takers_receiving.amount
            + accounts.custody.amount;
        accounts.custody.amount = 0;
        // 3. Close the custody account, crediting its reserved balance.
        accounts.initializer_main.lamports = accounts.initializer_main.lamports
            + accounts.custody.lamports;
        accounts.custody.lamports = 0;
        // 4. Zero and close the escrow record account.
        accounts.initializer_main.lamports = accounts.initializer_main.lamports
            + accounts.escrow.lamports;
        accounts.escrow.lamports = 0;
        accounts.escrow.data = Vec::new();
        Ok(())
    }

    /// Cancel: the original initiator reclaims the custody account's entire
    /// balance and the escrow closes, with the same atomicity and the same
    /// derived-authority proof as a settlement; succeeds exactly when
    /// `cancel_error` is `None`.
    pub fn cancel_escrow(
        program_id: &Vec<u8>,
        accounts: &mut CancelAccounts,
        pass: &Vec<u8>,
    ) -> (r: Result<(), EscrowError>)
        requires
            old(accounts).wf(),
            pass@.len() == KEY_LEN,
            program_id@.len() == KEY_LEN,
        ensures
            match cancel_error(*old(accounts), pass@, program_id@) {
                Some(e) => r == Err::<(), EscrowError>(e) && *final(accounts) == *old(accounts),
                None => r == Ok::<(), EscrowError>(()) && cancel_transition(
                    *old(accounts),
                    *final(accounts),
                    pass@,
                    program_id@,
                ),
            },
            final(accounts).wf(),
    {
        if !accounts.initializer.is_signer {
            return Err(EscrowError::MissingSignature);
        }
        let record = match EscrowState::unpack(&accounts.escrow.data) {
            Ok(st) => st,
            Err(e) => return Err(e),
        };
        if !record.is_initialized {
            return Err(EscrowError::AccountMismatch);
        }
        if !bytes_eq(record.initializer_pubkey.as_slice(), accounts.initializer.key.as_slice()) {
            return Err(EscrowError::AccountMismatch);
        }
        if !bytes_eq(
            record.temp_token_account_pubkey.as_slice(),
            accounts.custody.key.as_slice(),
        ) {
            return Err(EscrowError::AccountMismatch);
        }
        let authority = match derive_custody_authority(pass, program_id) {
            Some(k) => k,
            None => return Err(EscrowError::ExternalLedgerError),
        };
        if !bytes_eq(accounts.custody.authority.as_slice(), authority.as_slice()) {
            return Err(EscrowError::ExternalLedgerError);
        }
        if accounts.initializer_receiving.amount > u64::MAX - accounts.custody.amount {
            return Err(EscrowError::ArithmeticOverflow);
        }
        if accounts.custody.lamports > u64::MAX - accounts.initializer.lamports {
            return Err(EscrowError::ArithmeticOverflow);
        }
        if accounts.escrow.lamports > u64::MAX - accounts.initializer.lamports
            - accounts.custody.lamports {
            return Err(EscrowError::ArithmeticOverflow);
        }
        // Return the custody account's entire balance to the initiator.
        accounts.initializer_receiving.amount = accounts.initializer_receiving.amount
            + accounts.custody.amount;
        accounts.custody.amount = 0;
        // Close the custody account, crediting its reserved balance.
        accounts.initializer.lamports = accounts.initializer.lamports + accounts.custody.lamports;
        accounts.custody.lamports = 0;
        // Zero and close the escrow record account.
        accounts.initializer.lamports = accounts.initializer.lamports + accounts.escrow.lamports;
        accounts.escrow.lamports = 0;
        accounts.escrow.data = Vec::new();
        Ok(())
    }

    /// Decode the payload and run the operation it selects on the matching
    /// account bundle. All three operations are handled; a payload whose
    /// operation does not fit the supplied bundle is refused with
    /// `AccountMismatch` before anything changes.
    pub fn process(
        program_id: &Vec<u8>,
        accounts: &mut OpAccounts,
        instruction_data: &[u8],
    ) -> (r: Result<(), EscrowError>)
        requires
            old(accounts).wf(),
            program_id@.len() == KEY_LEN,
        ensures
            !valid_wire(instruction_data@) ==> r == Err::<(), EscrowError>(
                EscrowError::MalformedInstruction,
            ) && *final(accounts) == *old(accounts),
            valid_wire(instruction_data@) && instruction_data@[0] == TAG_INIT ==> (match *old(
                accounts,
            ) {
                OpAccounts::Init(pre) => match init_error(
                    pre,
                    wire_pass(instruction_data@),
                    program_id@,
                ) {
                    Some(e) => r == Err::<(), EscrowError>(e) && *final(accounts) == *old(
                        accounts,
                    ),
                    None => r == Ok::<(), EscrowError>(()) && (*final(accounts) matches OpAccounts::Init(post) && init_transition(
                        pre,
                        post,
                        wire_amount_x(instruction_data@),
                        wire_amount_y(instruction_data@),
                        wire_pass(instruction_data@),
                        program_id@,
                    )),
                },
                _ => r == Err::<(), EscrowError>(EscrowError::AccountMismatch) && *final(accounts)
                    == *old(accounts),
            }),
            valid_wire(instruction_data@) && instruction_data@[0] == TAG_EXCHANGE ==> (match *old(
                accounts,
            ) {
                OpAccounts::Exchange(pre) => match exchange_error(
                    pre,
                    wire_pass(instruction_data@),
                    program_id@,
                ) {
                    Some(e) => r == Err::<(), EscrowError>(e) && *final(accounts) == *old(
                        accounts,
                    ),
                    None => r == Ok::<(), EscrowError>(()) && (*final(accounts) matches OpAccounts::Exchange(post) && exchange_transition(
                        pre,
                        post,
                        wire_pass(instruction_data@),
                        program_id@,
                    )),
                },
                _ => r == Err::<(), EscrowError>(EscrowError::AccountMismatch) && *final(accounts)
                    == *old(accounts),
            }),
            valid_wire(instruction_data@) && instruction_data@[0] == TAG_WITHDRAW ==> (match *old(
                accounts,
            ) {
                OpAccounts::Cancel(pre) => match cancel_error(
                    pre,
                    wire_pass(instruction_data@),
                    program_id@,
                ) {
                    Some(e) => r == Err::<(), EscrowError>(e) && *final(accounts) == *old(
                        accounts,
                    ),
                    None => r == Ok::<(), EscrowError>(()) && (*final(accounts) matches OpAccounts::Cancel(post) && cancel_transition(
                        pre,
                        post,
                        wire_pass(instruction_data@),
                        program_id@,
                    )),
                },
                _ => r == Err::<(), EscrowError>(EscrowError::AccountMismatch) && *final(accounts)
                    == *old(accounts),
            }),
            final(accounts).wf(),
    {
        let instr = match EscrowInstruction::unpack(instruction_data) {
            Ok(i) => i,
            Err(e) => return Err(e),
        };
        match instr {
            EscrowInstruction::InitEscrow { amount_x, amount_y, pass } => {
                proof {
                    let gi = EscrowInstruction::InitEscrow { amount_x, amount_y, pass };
                    lemma_wire_round_trip(gi, gi);
                }
                match accounts {
                    OpAccounts::Init(a) => Self::process_init_escrow(
                        program_id,
                        a,
                        amount_x,
                        amount_y,
                        &pass,
                    ),
                    _ => Err(EscrowError::AccountMismatch),
                }
            },
            EscrowInstruction::Exchange { pass } => {
                proof {
                    let gi = EscrowInstruction::Exchange { pass };
                    lemma_wire_round_trip(gi, gi);
                }
                match accounts {
                    OpAccounts::Exchange(a) => Self::exchange_token(program_id, a, &pass),
                    _ => Err(EscrowError::AccountMismatch),
                }
            },
            EscrowInstruction::Withdraw { pass } => {
                proof {
                    let gi = EscrowInstruction::Withdraw { pass };
                    lemma_wire_round_trip(gi, gi);
                }
                match accounts {
                    OpAccounts::Cancel(a) => Self::cancel_escrow(program_id, a, &pass),
                    _ => Err(EscrowError::AccountMismatch),
                }
            },
        }
    }
}

/// Law: a record persisted by a successful initiation is marked initialized,
/// so a second initiation against that record — whatever its amounts, secret
/// or program — stops at `AlreadyInitialized` as soon as its signer, owner
/// and rent checks pass. A record is marked initialized exactly once.
pub proof fn lemma_initiate_once(
    pre: InitAccounts,
    post: InitAccounts,
    amount_x: u64,
    amount_y: u64,
    pass: Seq<u8>,
    program_id: Seq<u8>,
    second: InitAccounts,
    pass2: Seq<u8>,
    program_id2: Seq<u8>,
)
    requires
        pre.wf(),
        init_transition(pre, post, amount_x, amount_y, pass, program_id),
        second.escrow.data@ == post.escrow.data@,
    ensures
        record_is_initialized(post.escrow.data@),
        second.initializer.is_signer && second.token_to_receive.owner@ == spec_token_ledger_id()
            && second.escrow.lamports >= second.rent_minimum ==> init_error(
            second,
            pass2,
            program_id2,
        ) == Some(EscrowError::AlreadyInitialized),
{
    lemma_record_fields(init_record(pre, amount_x, amount_y));
}

/// Law: settlement is owed. After a successful initiation, an exchange is
/// accepted whenever it supplies the recorded custody, initiator and
/// receiving accounts, the same secret and program, a signed taker whose
/// source account holds at least the expected amount under the taker's own
/// authority, and balances that no credit overflows. Together with
/// `exchange_transition` this fixes the settled amounts exactly: the
/// initiator receives the expected amount of asset Y and the taker receives
/// the custody account's entire locked balance of asset X.
pub proof fn lemma_initiated_swap_settles(
    pre: InitAccounts,
    post: InitAccounts,
    amount_x: u64,
    amount_y: u64,
    pass: Seq<u8>,
    program_id: Seq<u8>,
    e: ExchangeAccounts,
)
    requires
        pre.wf(),
        init_transition(pre, post, amount_x, amount_y, pass, program_id),
        custody_authority(pass, program_id) is Some,
        e.escrow.data@ == post.escrow.data@,
        e.custody.key@ == pre.temp_token.key@,
        e.custody.authority@ == post.temp_token.authority@,
        e.initializer_main.key@ == pre.initializer.key@,
        e.initializers_receiving.key@ == pre.token_to_receive.key@,
        e.taker.is_signer,
        e.takers_sending.authority@ == e.taker.key@,
        e.takers_sending.amount >= amount_y,
        e.initializers_receiving.amount + amount_y <= u64::MAX,
        e.takers_receiving.amount + e.custody.amount <= u64::MAX,
        e.initializer_main.lamports + e.custody.lamports + e.escrow.lamports <= u64::MAX,
    ensures
        exchange_error(e, pass, program_id) is None,
        record_expected(e.escrow.data@) == amount_y,
{
    lemma_record_fields(init_record(pre, amount_x, amount_y));
}

/// Law: reclaim is owed. After a successful initiation, a cancellation is
/// accepted whenever the stored initiator signs it and supplies the recorded
/// custody account, the same secret and program, and balances that no credit
/// overflows. Together with `cancel_transition` this returns the custody
/// account's entire locked balance to the initiator and closes the escrow.
pub proof fn lemma_initiated_escrow_cancels(
    pre: InitAccounts,
    post: InitAccounts,
    amount_x: u64,
    amount_y: u64,
    pass: Seq<u8>,
    program_id: Seq<u8>,
    c: CancelAccounts,
)
    requires
        pre.wf(),
        init_transition(pre, post, amount_x, amount_y, pass, program_id),
        custody_authority(pass, program_id) is Some,
        c.escrow.data@ == post.escrow.data@,
        c.initializer.is_signer,
        c.initializer.key@ == pre.initializer.key@,
        c.custody.key@ == pre.temp_token.key@,
        c.custody.authority@ == post.temp_token.authority@,
        c.initializer_receiving.amount + c.custody.amount <= u64::MAX,
        c.initializer.lamports + c.custody.lamports + c.escrow.lamports <= u64::MAX,
    ensures
        cancel_error(c, pass, program_id) is None,
{
    lemma_record_fields(init_record(pre, amount_x, amount_y));
}

/// Law: initiation fails with `MissingSignature` exactly when the initiator's
/// signer flag is absent, regardless of every other field.
pub proof fn lemma_missing_signature(a: InitAccounts, pass: Seq<u8>, program_id: Seq<u8>)
    ensures
        init_error(a, pass, program_id) == Some(EscrowError::MissingSignature)
            <==> !a.initializer.is_signer,
{
}

/// Law: with the taker signed and the record well-formed, settlement fails
/// with `AccountMismatch` exactly when one of the three identities persisted
/// in the record differs from the account supplied. (That no transfer occurs
/// then is the unchanged-on-error clause of `exchange_token`.)
pub proof fn lemma_exchange_account_mismatch(
    a: ExchangeAccounts,
    pass: Seq<u8>,
    program_id: Seq<u8>,
)
    requires
        a.taker.is_signer,
        valid_record_bytes(a.escrow.data@),
    ensures
        exchange_error(a, pass, program_id) == Some(EscrowError::AccountMismatch) <==> (
        record_custody(a.escrow.data@) != a.custody.key@ || record_initializer(a.escrow.data@)
            != a.initializer_main.key@ || record_receiving(a.escrow.data@)
            != a.initializers_receiving.key@),
{
}

/// Law: a cancellation by anyone but the stored initiator is refused — with
/// the caller signed and the record well-formed and initialized, a caller key
/// different from the stored initiator identity yields `AccountMismatch`.
pub proof fn lemma_cancel_only_initiator(a: CancelAccounts, pass: Seq<u8>, program_id: Seq<u8>)
    requires
        a.initializer.is_signer,
        valid_record_bytes(a.escrow.data@),
        record_is_initialized(a.escrow.data@),
        record_initializer(a.escrow.data@) != a.initializer.key@,
    ensures
        cancel_error(a, pass, program_id) == Some(EscrowError::AccountMismatch),
{
}

} // verus!
