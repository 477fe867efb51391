//! Oracle proof verifier.
//!
//! A booking attestation counts only when the instruction placed directly
//! before the current one, in the same atomic request, is a signature
//! verification by the platform's signature program, made with the trusted
//! oracle's key over exactly the attestation's message.
//!
//! The data of such an instruction begins with the number of signatures it
//! holds and one byte of padding. Seven little-endian numbers of two bytes
//! follow for each signature: where the signature lies and in which
//! instruction, where the public key lies and in which instruction, and where
//! the message lies, how long it is and in which instruction. In place of an
//! instruction's index the value 65535 stands for the instruction itself.

use vstd::prelude::*;

use crate::address::Address;
use crate::attestation::{message_determines_attestation, message_len, BookingProof};
use crate::bytes::{holds_at, le_value, read_u16_le};
use crate::error::ErrorCode;

verus! {

/// The identity of the platform's signature program, which reads
/// `Ed25519SigVerify111111111111111111111111111` in base 58.
pub const ED25519_PROGRAM_ID: [u8; 32] = [
    3, 125, 70, 214, 124, 147, 251, 190, 18, 249, 66, 143, 131, 141, 64, 255,
    5, 112, 116, 73, 39, 244, 138, 100, 252, 202, 112, 68, 128, 0, 0, 0,
];

/// Length of a signature, in bytes.
pub const SIGNATURE_LEN: usize = 64;

/// Length of a public key, in bytes.
pub const PUBLIC_KEY_LEN: usize = 32;

/// Length of what precedes the payload in the data of a signature
/// instruction that holds one signature.
pub const HEADER_LEN: usize = 16;

/// Written in place of an instruction's index, it names the instruction that
/// holds the offsets.
pub const SAME_INSTRUCTION: u16 = 0xffff;

/// An instruction of the enclosing request, as far as the verifier reads it.
#[derive(Clone, Debug, PartialEq, Eq)]
pub struct SignatureInstruction {
    /// The program that the instruction is addressed to.
    pub program_id: Address,
    /// The data that the instruction carries.
    pub data: Vec<u8>,
}

/// Where a signature instruction says its signature, key and message lie.
#[derive(Clone, Copy, Debug, PartialEq, Eq, Structural)]
pub struct SignatureOffsets {
    pub signature_offset: u16,
    pub signature_instruction_index: u16,
    pub public_key_offset: u16,
    pub public_key_instruction_index: u16,
    pub message_data_offset: u16,
    pub message_data_size: u16,
    pub message_instruction_index: u16,
}

/// The two-byte number that `data` holds at `at`.
pub open spec fn field_at(data: Seq<u8>, at: int) -> u16 {
    le_value(data.subrange(at, at + 2)) as u16
}

/// The offsets that the header of `data` spells out for its first signature.
pub open spec fn offsets_of(data: Seq<u8>) -> SignatureOffsets {
    SignatureOffsets {
        signature_offset: field_at(data, 2),
        signature_instruction_index: field_at(data, 4),
        public_key_offset: field_at(data, 6),
        public_key_instruction_index: field_at(data, 8),
        message_data_offset: field_at(data, 10),
        message_data_size: field_at(data, 12),
        message_instruction_index: field_at(data, 14),
    }
}

/// An index field points at the instruction that holds it when it says so
/// outright or names that instruction's own index.
pub open spec fn points_home(field: u16, own_index: u16) -> bool {
    field == SAME_INSTRUCTION || field == own_index
}

/// The data of the instruction at `own_index` holds exactly one signature,
/// and the signature, the key and the message all lie within it.
pub open spec fn well_placed(data: Seq<u8>, own_index: u16) -> bool {
    let at = offsets_of(data);
    &&& data.len() >= HEADER_LEN
    &&& data[0] == 1
    &&& points_home(at.signature_instruction_index, own_index)
    &&& points_home(at.public_key_instruction_index, own_index)
    &&& points_home(at.message_instruction_index, own_index)
    &&& at.signature_offset + SIGNATURE_LEN <= data.len()
    &&& at.public_key_offset + PUBLIC_KEY_LEN <= data.len()
    &&& at.message_data_offset + at.message_data_size <= data.len()
}

/// The key with which the signature in `data` was made.
pub open spec fn signing_key(data: Seq<u8>) -> Seq<u8> {
    let at = offsets_of(data);
    data.subrange(at.public_key_offset as int, at.public_key_offset + PUBLIC_KEY_LEN)
}

/// The message over which the signature in `data` was made.
pub open spec fn signed_message(data: Seq<u8>) -> Seq<u8> {
    let at = offsets_of(data);
    data.subrange(
        at.message_data_offset as int,
        at.message_data_offset + at.message_data_size,
    )
}

/// Why an attestation is turned down, if it is. The checks come in this
/// order, and the first that fails names the error:
/// the current instruction is the first of its request, or the one before it
/// is not at hand; that instruction belongs to another program than the
/// signature program; its data is not well placed; the key that signed, or the
/// key that the attestation declares, is not the trusted oracle's; the signed
/// message is not the attestation's message.
pub open spec fn rejection(
    attestation: BookingProof,
    instruction_index: u16,
    preceding: Option<SignatureInstruction>,
    oracle: Address,
) -> Option<ErrorCode> {
    if instruction_index == 0 || preceding is None {
        Some(ErrorCode::InvalidInstructionIndex)
    } else {
        let instruction = preceding->0;
        let own_index = (instruction_index - 1) as u16;
        if instruction.program_id@ != ED25519_PROGRAM_ID@ {
            Some(ErrorCode::InvalidProgramId)
        } else if !well_placed(instruction.data@, own_index) {
            Some(ErrorCode::InvalidOffset)
        } else if signing_key(instruction.data@) != oracle@ || attestation.oracle_pubkey@
            != oracle@ {
            Some(ErrorCode::InvalidOracleKey)
        } else if signed_message(instruction.data@) != attestation.message() {
            Some(ErrorCode::OracleMessageMismatch)
        } else {
            None
        }
    }
}

/// An attestation that passed the verifier. Only `verify_attestation` makes one.
#[derive(Debug)]
pub struct VerifiedAttestation {
    attested: BookingProof,
}

impl VerifiedAttestation {
    /// What the oracle attested.
    pub closed spec fn claims(&self) -> BookingProof {
        self.attested
    }

    /// What the oracle attested.
    pub fn attested(&self) -> (p: &BookingProof)
        ensures
            *p == self.claims(),
    {
        &self.attested
    }

    /// Gives up the attestation for what the oracle attested.
    pub fn into_attested(self) -> (p: BookingProof)
        ensures
            p == self.claims(),
    {
        self.attested
    }
}

/// Reads the header of a signature instruction found at `own_index`.
/// Returns the offsets it spells out when the data is well placed, and
/// `InvalidOffset` when it is not.
pub fn locate(data: &[u8], own_index: u16) -> (r: Result<SignatureOffsets, ErrorCode>)
    ensures
        well_placed(data@, own_index) ==> r == Ok::<SignatureOffsets, ErrorCode>(
            offsets_of(data@),
        ),
        !well_placed(data@, own_index) ==> r == Err::<SignatureOffsets, ErrorCode>(
            ErrorCode::InvalidOffset,
        ),
{
    let len = data.len();
    if len < HEADER_LEN {
        return Err(ErrorCode::InvalidOffset);
    }
    if data[0] != 1 {
        return Err(ErrorCode::InvalidOffset);
    }
    let at = SignatureOffsets {
        signature_offset: read_u16_le(data, 2),
        signature_instruction_index: read_u16_le(data, 4),
        public_key_offset: read_u16_le(data, 6),
        public_key_instruction_index: read_u16_le(data, 8),
        message_data_offset: read_u16_le(data, 10),
        message_data_size: read_u16_le(data, 12),
        message_instruction_index: read_u16_le(data, 14),
    };
    assert(at == offsets_of(data@));
    if !is_home(at.signature_instruction_index, own_index) || !is_home(
        at.public_key_instruction_index,
        own_index,
    ) || !is_home(at.message_instruction_index, own_index) {
        return Err(ErrorCode::InvalidOffset);
    }
    if at.signature_offset as usize + SIGNATURE_LEN > len || at.public_key_offset as usize
        + PUBLIC_KEY_LEN > len || at.message_data_offset as usize + at.message_data_size as usize
        > len {
        return Err(ErrorCode::InvalidOffset);
    }
    Ok(at)
}

fn is_home(field: u16, own_index: u16) -> (r: bool)
    ensures
        r == points_home(field, own_index),
{
    field == SAME_INSTRUCTION || field == own_index
}

/// Verifies an attestation against the request that carries it.
///
/// `instruction_index` is the place of the current instruction in its
/// request, `preceding` the instruction directly before it, and `oracle` the
/// key of the trusted oracle. The attestation is accepted exactly when
/// `rejection` finds no fault, and is otherwise turned down with the error
/// that `rejection` names. Nothing is changed either way.
pub fn verify_attestation(
    attestation: BookingProof,
    instruction_index: u16,
    preceding: Option<&SignatureInstruction>,
    oracle: &Address,
) -> (r: Result<VerifiedAttestation, ErrorCode>)
    ensures
        match r {
            Ok(verified) => rejection(attestation, instruction_index, deref(preceding), *oracle)
                is None && verified.claims() == attestation,
            Err(e) => rejection(attestation, instruction_index, deref(preceding), *oracle)
                == Some(e),
        },
{
    if instruction_index == 0 {
        return Err(ErrorCode::InvalidInstructionIndex);
    }
    let instruction = match preceding {
        Some(i) => i,
        None => { return Err(ErrorCode::InvalidInstructionIndex); },
    };
    let own_index: u16 = instruction_index - 1;
    if instruction.program_id != Address::new(ED25519_PROGRAM_ID) {
        return Err(ErrorCode::InvalidProgramId);
    }
    let data = instruction.data.as_slice();
    let at = match locate(data, own_index) {
        Ok(at) => at,
        Err(e) => { return Err(e); },
    };
    if !holds_at(data, at.public_key_offset as usize, oracle.bytes.as_slice())
        || attestation.oracle_pubkey != *oracle {
        return Err(ErrorCode::InvalidOracleKey);
    }
    proof {
        message_len(attestation);
    }
    let message = match attestation.encode() {
        Some(m) => m,
        None => { return Err(ErrorCode::OracleMessageMismatch); },
    };
    if message.len() != at.message_data_size as usize {
        return Err(ErrorCode::OracleMessageMismatch);
    }
    if !holds_at(data, at.message_data_offset as usize, message.as_slice()) {
        return Err(ErrorCode::OracleMessageMismatch);
    }
    Ok(VerifiedAttestation { attested: attestation })
}

/// The instruction behind an optional reference.
pub open spec fn deref(preceding: Option<&SignatureInstruction>) -> Option<SignatureInstruction> {
    match preceding {
        Some(i) => Some(*i),
        None => None,
    }
}

/// What an accepted attestation rests on: the instruction before the
/// current one is a well-placed signature of the signature program, made
/// with the trusted oracle's key, which the attestation declares too, over
/// the attestation's message.
pub proof fn accepted_is_signed(
    attestation: BookingProof,
    instruction_index: u16,
    preceding: Option<SignatureInstruction>,
    oracle: Address,
)
    requires
        rejection(attestation, instruction_index, preceding, oracle) is None,
    ensures
        instruction_index >= 1,
        preceding matches Some(instruction) && {
            &&& instruction.program_id@ == ED25519_PROGRAM_ID@
            &&& well_placed(instruction.data@, (instruction_index - 1) as u16)
            &&& signing_key(instruction.data@) == oracle@
            &&& signed_message(instruction.data@) == attestation.message()
        },
        attestation.oracle_pubkey@ == oracle@,
{
}

/// One signature vouches for one attestation: two attestations that are
/// accepted on the strength of the same instruction agree in every field.
pub proof fn one_signature_one_attestation(
    first: BookingProof,
    second: BookingProof,
    instruction_index: u16,
    preceding: Option<SignatureInstruction>,
    oracle: Address,
)
    requires
        rejection(first, instruction_index, preceding, oracle) is None,
        rejection(second, instruction_index, preceding, oracle) is None,
    ensures
        first.booking_id@ == second.booking_id@,
        first.amount == second.amount,
        first.start_date == second.start_date,
        first.end_date == second.end_date,
        first.host_wallet@ == second.host_wallet@,
        first.oracle_pubkey@ == second.oracle_pubkey@,
        first.tier_index == second.tier_index,
        first.investor_wallet@ == second.investor_wallet@,
{
    message_len(first);
    message_len(second);
    message_determines_attestation(first, second);
}

} // verus!
