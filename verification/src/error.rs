//! The closed error taxonomy of the escrow program.
//!
//! Every operation is fail-fast: the first violated precondition aborts the
//! operation with one of these values and no observable mutation.
use vstd::prelude::*;

verus! {

/// Why an escrow operation was refused. Each operation's contract states
/// exactly which inputs produce which variant.
#[derive(Clone, Copy, Debug, PartialEq, Eq, Structural)]
pub enum EscrowError {
    /// A required transaction signature is absent.
    MissingSignature,
    /// An account is owned by the wrong program.
    IncorrectOwner,
    /// The escrow record account does not hold the rent-exemption minimum.
    NotRentExempt,
    /// The escrow record is already initialized.
    AlreadyInitialized,
    /// An identity supplied by the caller differs from the one persisted in
    /// the escrow record, or the accounts do not fit the requested operation.
    AccountMismatch,
    /// A balance credit would overflow.
    ArithmeticOverflow,
    /// The payload has an unknown tag or does not fit the schema of its tag,
    /// or the escrow record account's bytes do not fit the record layout.
    MalformedInstruction,
    /// The token ledger or the address-derivation collaborator refused the
    /// request (wrong authority, insufficient balance, no derivable address).
    ExternalLedgerError,
}

} // verus!
