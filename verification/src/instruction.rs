//! The wire format of the three escrow operations.
//!
//! Byte 0 selects the operation; the remaining bytes must fit the fixed-width
//! schema of that operation exactly — no missing and no trailing bytes.
use vstd::prelude::*;

use crate::KEY_LEN;
use crate::bytes::{
    push_bytes, push_u64_le, read_bytes, read_u64_le, u64_from_le, u64_to_le,
    lemma_u64_le_round_trip, lemma_u64_le_bytes_round_trip,
};
use crate::error::EscrowError;

verus! {

/// Wire tag of an initiation request.
pub const TAG_INIT: u8 = 0;

/// Wire tag of an exchange (settlement) request.
pub const TAG_EXCHANGE: u8 = 1;

/// Wire tag of a cancellation request.
pub const TAG_WITHDRAW: u8 = 2;

/// Bytes after the tag of an initiation request: two amounts and the secret.
pub const INIT_SCHEMA_LEN: usize = 8 + 8 + KEY_LEN;

/// Bytes after the tag of an exchange or cancellation request: the secret.
pub const SECRET_SCHEMA_LEN: usize = KEY_LEN;

/// A decoded operation request.
pub enum EscrowInstruction {
    /// Lock `amount_x` of asset X in custody, asking for `amount_y` of asset
    /// Y; `pass` is the per-escrow secret folded into the custody authority.
    InitEscrow { amount_x: u64, amount_y: u64, pass: Vec<u8> },
    /// Settle the swap.
    Exchange { pass: Vec<u8> },
    /// Cancel the escrow and reclaim the locked amount.
    Withdraw { pass: Vec<u8> },
}

/// The fields of an initiation request, as laid out after the tag byte.
pub struct EscrowPayload {
    pub amount_x: u64,
    pub amount_y: u64,
    pub pass: Vec<u8>,
}

/// The fields of an exchange request, as laid out after the tag byte.
pub struct EscrowExchangePayload {
    pub pass: Vec<u8>,
}

/// The fields of a cancellation request, as laid out after the tag byte.
pub struct EscrowWithdrawPayload {
    pub pass: Vec<u8>,
}

/// Whether a byte string is a well-formed operation payload.
pub open spec fn valid_wire(s: Seq<u8>) -> bool {
    s.len() > 0 && ((s[0] == TAG_INIT && s.len() == 1 + INIT_SCHEMA_LEN) || ((s[0] == TAG_EXCHANGE
        || s[0] == TAG_WITHDRAW) && s.len() == 1 + SECRET_SCHEMA_LEN))
}

/// The amount-locked field of an initiation payload.
pub open spec fn wire_amount_x(s: Seq<u8>) -> u64 {
    u64_from_le(s.subrange(1, 9))
}

/// The amount-expected field of an initiation payload.
pub open spec fn wire_amount_y(s: Seq<u8>) -> u64 {
    u64_from_le(s.subrange(9, 17))
}

/// The per-escrow secret: the last `KEY_LEN` bytes of every payload.
pub open spec fn wire_pass(s: Seq<u8>) -> Seq<u8> {
    s.subrange(s.len() as int - KEY_LEN as int, s.len() as int)
}

impl EscrowInstruction {
    /// The secret is always exactly `KEY_LEN` bytes.
    pub open spec fn wf(self) -> bool {
        match self {
            EscrowInstruction::InitEscrow { pass, .. } => pass@.len() == KEY_LEN,
            EscrowInstruction::Exchange { pass } => pass@.len() == KEY_LEN,
            EscrowInstruction::Withdraw { pass } => pass@.len() == KEY_LEN,
        }
    }

    /// The wire encoding: one tag byte, then the fixed-width fields in order.
    pub open spec fn spec_pack(self) -> Seq<u8> {
        match self {
            EscrowInstruction::InitEscrow { amount_x, amount_y, pass } => seq![TAG_INIT]
                + u64_to_le(amount_x) + u64_to_le(amount_y) + pass@,
            EscrowInstruction::Exchange { pass } => seq![TAG_EXCHANGE] + pass@,
            EscrowInstruction::Withdraw { pass } => seq![TAG_WITHDRAW] + pass@,
        }
    }

    /// Whether two requests ask for the same operation with the same fields.
    pub open spec fn same_request(self, other: Self) -> bool {
        match (self, other) {
            (
                EscrowInstruction::InitEscrow { amount_x: x1, amount_y: y1, pass: p1 },
                EscrowInstruction::InitEscrow { amount_x: x2, amount_y: y2, pass: p2 },
            ) => x1 == x2 && y1 == y2 && p1@ == p2@,
            (
                EscrowInstruction::Exchange { pass: p1 },
                EscrowInstruction::Exchange { pass: p2 },
            ) => p1@ == p2@,
            (
                EscrowInstruction::Withdraw { pass: p1 },
                EscrowInstruction::Withdraw { pass: p2 },
            ) => p1@ == p2@,
            _ => false,
        }
    }

    /// Decodes a payload; pure, no side effects. Returns the operation
    /// exactly when the payload is well-formed, and `MalformedInstruction`
    /// on an unknown tag or a schema mismatch.
    pub fn unpack(instruction_data: &[u8]) -> (r: Result<Self, EscrowError>)
        ensures
            r is Ok <==> valid_wire(instruction_data@),
            r matches Ok(i) ==> i.wf() && i.spec_pack() == instruction_data@,
            r matches Err(e) ==> e == EscrowError::MalformedInstruction,
    {
        if instruction_data.len() == 0 {
            return Err(EscrowError::MalformedInstruction);
        }
        let tag = instruction_data[0];
        if tag == TAG_INIT {
            if instruction_data.len() != 1 + INIT_SCHEMA_LEN {
                return Err(EscrowError::MalformedInstruction);
            }
            let payload = EscrowPayload {
                amount_x: read_u64_le(instruction_data, 1),
                amount_y: read_u64_le(instruction_data, 9),
                pass: read_bytes(instruction_data, 17, KEY_LEN),
            };
            let r = EscrowInstruction::InitEscrow {
                amount_x: payload.amount_x,
                amount_y: payload.amount_y,
                pass: payload.pass,
            };
            proof {
                lemma_u64_le_bytes_round_trip(instruction_data@.subrange(1, 9));
                lemma_u64_le_bytes_round_trip(instruction_data@.subrange(9, 17));
                assert(r.spec_pack() =~= instruction_data@);
            }
            Ok(r)
        } else if tag == TAG_EXCHANGE {
            if instruction_data.len() != 1 + SECRET_SCHEMA_LEN {
                return Err(EscrowError::MalformedInstruction);
            }
            let payload = EscrowExchangePayload {
                pass: read_bytes(instruction_data, 1, KEY_LEN),
            };
            let r = EscrowInstruction::Exchange { pass: payload.pass };
            proof {
                assert(r.spec_pack() =~= instruction_data@);
            }
            Ok(r)
        } else if tag == TAG_WITHDRAW {
            if instruction_data.len() != 1 + SECRET_SCHEMA_LEN {
                return Err(EscrowError::MalformedInstruction);
            }
            let payload = EscrowWithdrawPayload {
                pass: read_bytes(instruction_data, 1, KEY_LEN),
            };
            let r = EscrowInstruction::Withdraw { pass: payload.pass };
            proof {
                assert(r.spec_pack() =~= instruction_data@);
            }
            Ok(r)
        } else {
            Err(EscrowError::MalformedInstruction)
        }
    }

    /// Encodes the operation into its wire payload.
    pub fn pack(&self) -> (r: Vec<u8>)
        ensures
            r@ == self.spec_pack(),
    {
        let mut out: Vec<u8> = Vec::new();
        match self {
            EscrowInstruction::InitEscrow { amount_x, amount_y, pass } => {
                out.push(TAG_INIT);
                push_u64_le(&mut out, *amount_x);
                push_u64_le(&mut out, *amount_y);
                push_bytes(&mut out, pass.as_slice());
            },
            EscrowInstruction::Exchange { pass } => {
                out.push(TAG_EXCHANGE);
                push_bytes(&mut out, pass.as_slice());
            },
            EscrowInstruction::Withdraw { pass } => {
                out.push(TAG_WITHDRAW);
                push_bytes(&mut out, pass.as_slice());
            },
        }
        proof {
            assert(out@ =~= self.spec_pack());
        }
        out
    }
}

/// Law: the wire codec round-trips. A well-formed request's encoding is a
/// valid payload, its fields stand at the fixed offsets, and any request
/// with the same encoding carries exactly the same operation and fields —
/// so decoding an encoding yields the original.
pub proof fn lemma_wire_round_trip(i: EscrowInstruction, j: EscrowInstruction)
    requires
        i.wf(),
        j.wf(),
        i.spec_pack() == j.spec_pack(),
    ensures
        valid_wire(i.spec_pack()),
        wire_pass(i.spec_pack()) == match i {
            EscrowInstruction::InitEscrow { pass, .. } => pass@,
            EscrowInstruction::Exchange { pass } => pass@,
            EscrowInstruction::Withdraw { pass } => pass@,
        },
        i matches EscrowInstruction::InitEscrow { amount_x, amount_y, .. } ==> wire_amount_x(
            i.spec_pack(),
        ) == amount_x && wire_amount_y(i.spec_pack()) == amount_y,
        i.same_request(j),
{
    let s = i.spec_pack();
    let t = j.spec_pack();
    match i {
        EscrowInstruction::InitEscrow { amount_x, amount_y, pass } => {
            assert(s[0] == TAG_INIT);
            assert(s.subrange(1, 9) =~= u64_to_le(amount_x));
            assert(s.subrange(9, 17) =~= u64_to_le(amount_y));
            assert(wire_pass(s) =~= pass@);
            lemma_u64_le_round_trip(amount_x);
            lemma_u64_le_round_trip(amount_y);
            match j {
                EscrowInstruction::InitEscrow { amount_x: x2, amount_y: y2, pass: p2 } => {
                    assert(t.subrange(1, 9) =~= u64_to_le(x2));
                    assert(t.subrange(9, 17) =~= u64_to_le(y2));
                    assert(wire_pass(t) =~= p2@);
                    lemma_u64_le_round_trip(x2);
                    lemma_u64_le_round_trip(y2);
                },
                EscrowInstruction::Exchange { .. } => {
                    assert(t[0] == TAG_EXCHANGE);
                },
                EscrowInstruction::Withdraw { .. } => {
                    assert(t[0] == TAG_WITHDRAW);
                },
            }
        },
        EscrowInstruction::Exchange { pass } => {
            assert(s[0] == TAG_EXCHANGE);
            assert(wire_pass(s) =~= pass@);
            match j {
                EscrowInstruction::Exchange { pass: p2 } => {
                    assert(wire_pass(t) =~= p2@);
                },
                _ => {
                    assert(t[0] != TAG_EXCHANGE);
                },
            }
        },
        EscrowInstruction::Withdraw { pass } => {
            assert(s[0] == TAG_WITHDRAW);
            assert(wire_pass(s) =~= pass@);
            match j {
                EscrowInstruction::Withdraw { pass: p2 } => {
                    assert(wire_pass(t) =~= p2@);
                },
                _ => {
                    assert(t[0] != TAG_WITHDRAW);
                },
            }
        },
    }
}

} // verus!
