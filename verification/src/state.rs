//! The persisted escrow record: one in-flight swap's parties, amounts and
//! identities, in a flat fixed-width layout.
use vstd::prelude::*;

use crate::KEY_LEN;
use crate::bytes::{
    push_bytes, push_u64_le, read_bytes, read_u64_le, u64_from_le, u64_to_le,
    lemma_u64_le_bytes_round_trip,
};
use crate::error::EscrowError;

verus! {

/// Size of the record layout: the initialized flag, three identities and two
/// amounts, in fixed order with no length prefixes.
pub const ESCROW_RECORD_LEN: usize = 1 + KEY_LEN + KEY_LEN + KEY_LEN + 8 + 8;

/// The escrow record. A fresh record account holds `ESCROW_RECORD_LEN` zero
/// bytes, which decode to an uninitialized record.
pub struct EscrowState {
    /// Set exactly once, by a successful initiation.
    pub is_initialized: bool,
    /// The initiator's identity.
    pub initializer_pubkey: Vec<u8>,
    /// The custody account holding the locked asset X.
    pub temp_token_account_pubkey: Vec<u8>,
    /// The initiator's account where asset Y must land.
    pub initializer_token_to_recive_account: Vec<u8>,
    /// Amount of asset Y the initiator expects.
    pub expected_amount: u64,
    /// Amount of asset X placed in custody.
    pub giving_amount: u64,
}

/// Whether a byte string is a well-formed record: exact size, and the flag
/// byte is 0 or 1.
pub open spec fn valid_record_bytes(s: Seq<u8>) -> bool {
    s.len() == ESCROW_RECORD_LEN && (s[0] == 0u8 || s[0] == 1u8)
}

/// The initialized flag stored in a record byte string.
pub open spec fn record_is_initialized(s: Seq<u8>) -> bool {
    s[0] == 1u8
}

/// The initiator identity stored in a record byte string.
pub open spec fn record_initializer(s: Seq<u8>) -> Seq<u8> {
    s.subrange(1, 33)
}

/// The custody-account identity stored in a record byte string.
pub open spec fn record_custody(s: Seq<u8>) -> Seq<u8> {
    s.subrange(33, 65)
}

/// The initiator's receiving-account identity stored in a record byte string.
pub open spec fn record_receiving(s: Seq<u8>) -> Seq<u8> {
    s.subrange(65, 97)
}

/// The amount-expected field stored in a record byte string.
pub open spec fn record_expected(s: Seq<u8>) -> u64 {
    u64_from_le(s.subrange(97, 105))
}

/// The amount-locked field stored in a record byte string.
pub open spec fn record_giving(s: Seq<u8>) -> u64 {
    u64_from_le(s.subrange(105, 113))
}

impl EscrowState {
    /// The three identities are full-width addresses.
    pub open spec fn wf(self) -> bool {
        self.initializer_pubkey@.len() == KEY_LEN && self.temp_token_account_pubkey@.len()
            == KEY_LEN && self.initializer_token_to_recive_account@.len() == KEY_LEN
    }

    /// The record layout: flag, three identities, two little-endian amounts.
    pub open spec fn spec_pack(self) -> Seq<u8> {
        seq![if self.is_initialized { 1u8 } else { 0u8 }] + self.initializer_pubkey@
            + self.temp_token_account_pubkey@ + self.initializer_token_to_recive_account@
            + u64_to_le(self.expected_amount) + u64_to_le(self.giving_amount)
    }

    /// Encodes the record into its persisted layout.
    pub fn pack(&self) -> (r: Vec<u8>)
        requires
            self.wf(),
        ensures
            r@ == self.spec_pack(),
            valid_record_bytes(r@),
            record_is_initialized(r@) == self.is_initialized,
            record_initializer(r@) == self.initializer_pubkey@,
            record_custody(r@) == self.temp_token_account_pubkey@,
            record_receiving(r@) == self.initializer_token_to_recive_account@,
            record_expected(r@) == self.expected_amount,
            record_giving(r@) == self.giving_amount,
    {
        let mut out: Vec<u8> = Vec::new();
        if self.is_initialized {
            out.push(1u8);
        } else {
            out.push(0u8);
        }
        push_bytes(&mut out, self.initializer_pubkey.as_slice());
        push_bytes(&mut out, self.temp_token_account_pubkey.as_slice());
        push_bytes(&mut out, self.initializer_token_to_recive_account.as_slice());
        push_u64_le(&mut out, self.expected_amount);
        push_u64_le(&mut out, self.giving_amount);
        proof {
            assert(out@ =~= self.spec_pack());
            lemma_record_fields(*self);
        }
        out
    }

    /// Decodes a record byte string. Succeeds exactly on well-formed records
    /// and returns the stored fields; fails with `MalformedInstruction` on a
    /// wrong size or a flag byte that is neither 0 nor 1.
    pub fn unpack(data: &Vec<u8>) -> (r: Result<Self, EscrowError>)
        ensures
            r is Ok <==> valid_record_bytes(data@),
            r matches Ok(st) ==> st.wf() && st.spec_pack() == data@ && st.is_initialized
                == record_is_initialized(data@) && st.initializer_pubkey@ == record_initializer(
                data@,
            ) && st.temp_token_account_pubkey@ == record_custody(data@)
                && st.initializer_token_to_recive_account@ == record_receiving(data@)
                && st.expected_amount == record_expected(data@) && st.giving_amount
                == record_giving(data@),
            r matches Err(e) ==> e == EscrowError::MalformedInstruction,
    {
        if data.len() != ESCROW_RECORD_LEN {
            return Err(EscrowError::MalformedInstruction);
        }
        let flag = data[0];
        if flag != 0 && flag != 1 {
            return Err(EscrowError::MalformedInstruction);
        }
        let st = EscrowState {
            is_initialized: flag == 1,
            initializer_pubkey: read_bytes(data.as_slice(), 1, KEY_LEN),
            temp_token_account_pubkey: read_bytes(data.as_slice(), 33, KEY_LEN),
            initializer_token_to_recive_account: read_bytes(data.as_slice(), 65, KEY_LEN),
            expected_amount: read_u64_le(data.as_slice(), 97),
            giving_amount: read_u64_le(data.as_slice(), 105),
        };
        proof {
            lemma_u64_le_bytes_round_trip(data@.subrange(97, 105));
            lemma_u64_le_bytes_round_trip(data@.subrange(105, 113));
            assert(st.spec_pack() =~= data@);
        }
        Ok(st)
    }
}

/// Law: each field of a well-formed record is read back from the position
/// its encoding put it at.
pub proof fn lemma_record_fields(st: EscrowState)
    requires
        st.wf(),
    ensures
        valid_record_bytes(st.spec_pack()),
        record_is_initialized(st.spec_pack()) == st.is_initialized,
        record_initializer(st.spec_pack()) == st.initializer_pubkey@,
        record_custody(st.spec_pack()) == st.temp_token_account_pubkey@,
        record_receiving(st.spec_pack()) == st.initializer_token_to_recive_account@,
        record_expected(st.spec_pack()) == st.expected_amount,
        record_giving(st.spec_pack()) == st.giving_amount,
{
    let s = st.spec_pack();
    assert(record_initializer(s) =~= st.initializer_pubkey@);
    assert(record_custody(s) =~= st.temp_token_account_pubkey@);
    assert(record_receiving(s) =~= st.initializer_token_to_recive_account@);
    assert(s.subrange(97, 105) =~= u64_to_le(st.expected_amount));
    assert(s.subrange(105, 113) =~= u64_to_le(st.giving_amount));
    crate::bytes::lemma_u64_le_round_trip(st.expected_amount);
    crate::bytes::lemma_u64_le_round_trip(st.giving_amount);
}

} // verus!
