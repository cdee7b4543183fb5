//! The accounts an operation touches, as the plain values the settlement
//! logic reads and writes. The host runtime hands the caller its own account
//! structures; the adapter around this library extracts these values and
//! applies the changes back.
use vstd::prelude::*;

use crate::KEY_LEN;

verus! {

/// A host account: an address, a signer flag, a reserved balance, the owning
/// program and the stored bytes.
pub struct AccountView {
    /// The account's address.
    pub key: Vec<u8>,
    /// Whether the transaction was signed by this account's key.
    pub is_signer: bool,
    /// The reserved host balance (pays for the account's persistence).
    pub lamports: u64,
    /// The program that owns the account.
    pub owner: Vec<u8>,
    /// The bytes stored in the account.
    pub data: Vec<u8>,
}

impl AccountView {
    /// Addresses are full width.
    pub open spec fn wf(self) -> bool {
        self.key@.len() == KEY_LEN && self.owner@.len() == KEY_LEN
    }
}

/// A token-ledger account: the collaborator's view of one asset balance.
pub struct TokenAccount {
    /// The account's address.
    pub key: Vec<u8>,
    /// The authority that may move or close the balance.
    pub authority: Vec<u8>,
    /// The token balance.
    pub amount: u64,
    /// The reserved host balance, credited to a beneficiary on close.
    pub lamports: u64,
}

impl TokenAccount {
    /// Addresses are full width.
    pub open spec fn wf(self) -> bool {
        self.key@.len() == KEY_LEN && self.authority@.len() == KEY_LEN
    }
}

/// The accounts an initiation touches.
pub struct InitAccounts {
    /// The initiator; must have signed.
    pub initializer: AccountView,
    /// The temporary account holding the asset X to be placed in custody.
    pub temp_token: TokenAccount,
    /// The initiator's account where asset Y must land; must be owned by the
    /// recognized token-ledger program.
    pub token_to_receive: AccountView,
    /// The escrow record account.
    pub escrow: AccountView,
    /// The rent oracle's answer: the minimum balance that keeps an account of
    /// the record's size alive.
    pub rent_minimum: u64,
}

impl InitAccounts {
    pub open spec fn wf(self) -> bool {
        self.initializer.wf() && self.temp_token.wf() && self.token_to_receive.wf()
            && self.escrow.wf()
    }
}

/// The accounts a settlement touches.
pub struct ExchangeAccounts {
    /// The taker; must have signed.
    pub taker: AccountView,
    /// The taker's asset-Y source account.
    pub takers_sending: TokenAccount,
    /// The taker's asset-X destination account.
    pub takers_receiving: TokenAccount,
    /// The custody account named in the record.
    pub custody: TokenAccount,
    /// The initiator's main account; receives the reserved balances.
    pub initializer_main: AccountView,
    /// The initiator's asset-Y receiving account named in the record.
    pub initializers_receiving: TokenAccount,
    /// The escrow record account.
    pub escrow: AccountView,
}

impl ExchangeAccounts {
    pub open spec fn wf(self) -> bool {
        self.taker.wf() && self.takers_sending.wf() && self.takers_receiving.wf()
            && self.custody.wf() && self.initializer_main.wf() && self.initializers_receiving.wf()
            && self.escrow.wf()
    }
}

/// The accounts a cancellation touches.
pub struct CancelAccounts {
    /// The original initiator; must have signed and match the record.
    pub initializer: AccountView,
    /// The initiator's asset-X destination account for the reclaimed balance.
    pub initializer_receiving: TokenAccount,
    /// The custody account named in the record.
    pub custody: TokenAccount,
    /// The escrow record account.
    pub escrow: AccountView,
}

impl CancelAccounts {
    pub open spec fn wf(self) -> bool {
        self.initializer.wf() && self.initializer_receiving.wf() && self.custody.wf()
            && self.escrow.wf()
    }
}

/// The account bundle of one operation, paired with the decoded instruction
/// by the dispatcher.
pub enum OpAccounts {
    Init(InitAccounts),
    Exchange(ExchangeAccounts),
    Cancel(CancelAccounts),
}

impl OpAccounts {
    pub open spec fn wf(self) -> bool {
        match self {
            OpAccounts::Init(a) => a.wf(),
            OpAccounts::Exchange(a) => a.wf(),
            OpAccounts::Cancel(a) => a.wf(),
        }
    }
}

} // verus!
