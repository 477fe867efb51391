//! The booking attestation and the bytes that the oracle signs for it.

use vstd::prelude::*;

use crate::address::Address;
use crate::bytes::{
    append, append_le, le_bytes, le_bytes_len, le_bytes_tell_apart, twos_complement,
    unsigned_image,
};

verus! {

/// Length of everything in a signed message but the text of the booking
/// identifier: the length prefix, three numbers, three identities and the
/// tier index.
pub const MESSAGE_FIXED_LEN: usize = 125;

/// What an oracle attests of a booking.
#[derive(Clone, Debug, PartialEq, Eq)]
pub struct BookingProof {
    pub booking_id: String,
    pub amount: u64,
    pub start_date: i64,
    pub end_date: i64,
    pub host_wallet: Address,
    pub oracle_pubkey: Address,
    pub tier_index: u8,
    pub investor_wallet: Address,
}

impl BookingProof {
    /// The booking identifier as UTF-8.
    pub open spec fn id_bytes(&self) -> Seq<u8> {
        vstd::utf8::encode_utf8(self.booking_id@)
    }

    /// The message that the oracle signs: each field in the order of its
    /// declaration, numbers little-endian in their full width, signed ones as
    /// their 64-bit pattern, identities as their thirty-two bytes, and the
    /// booking identifier as its UTF-8 text behind its length in four bytes.
    pub open spec fn message(&self) -> Seq<u8> {
        le_bytes(self.id_bytes().len(), 4) + self.id_bytes() + le_bytes(self.amount as nat, 8)
            + le_bytes(twos_complement(self.start_date as int), 8) + le_bytes(
            twos_complement(self.end_date as int),
            8,
        ) + self.host_wallet@ + self.oracle_pubkey@ + seq![self.tier_index]
            + self.investor_wallet@
    }

    /// A message exists for the attestation when the length of its booking
    /// identifier can be written in four bytes.
    pub open spec fn has_message(&self) -> bool {
        self.id_bytes().len() <= u32::MAX
    }

    /// The message that the oracle signs for this attestation, or `None`
    /// when the booking identifier is too long for one.
    pub fn encode(&self) -> (out: Option<Vec<u8>>)
        ensures
            self.has_message() ==> (out matches Some(bytes) && bytes@ == self.message()),
            !self.has_message() ==> out is None,
    {
        let id = self.booking_id.as_str().as_bytes();
        if id.len() > 0xffff_ffff {
            return None;
        }
        let mut out: Vec<u8> = Vec::new();
        append_le(&mut out, id.len() as u64, 4);
        append(&mut out, id);
        append_le(&mut out, self.amount, 8);
        append_le(&mut out, unsigned_image(self.start_date), 8);
        append_le(&mut out, unsigned_image(self.end_date), 8);
        append(&mut out, self.host_wallet.bytes.as_slice());
        append(&mut out, self.oracle_pubkey.bytes.as_slice());
        out.push(self.tier_index);
        append(&mut out, self.investor_wallet.bytes.as_slice());
        assert(out@ =~= self.message());
        Some(out)
    }
}

/// A message is as long as its fixed part and the text of the booking
/// identifier together.
pub proof fn message_len(attestation: BookingProof)
    ensures
        attestation.message().len() == MESSAGE_FIXED_LEN + attestation.id_bytes().len(),
{
    le_bytes_len(attestation.id_bytes().len(), 4);
    le_bytes_len(attestation.amount as nat, 8);
    le_bytes_len(twos_complement(attestation.start_date as int), 8);
    le_bytes_len(twos_complement(attestation.end_date as int), 8);
}

/// The message tells the attestation: two attestations that have the same
/// message agree in every field.
pub proof fn message_determines_attestation(a: BookingProof, b: BookingProof)
    requires
        a.has_message(),
        b.has_message(),
        a.message() == b.message(),
    ensures
        a.booking_id@ == b.booking_id@,
        a.amount == b.amount,
        a.start_date == b.start_date,
        a.end_date == b.end_date,
        a.host_wallet@ == b.host_wallet@,
        a.oracle_pubkey@ == b.oracle_pubkey@,
        a.tier_index == b.tier_index,
        a.investor_wallet@ == b.investor_wallet@,
{
    let m = a.message();
    let n = a.id_bytes().len() as int;
    let k = b.id_bytes().len() as int;
    assert(vstd::arithmetic::power::pow(256, 4) == 0x1_0000_0000) by {
        reveal_with_fuel(vstd::arithmetic::power::pow, 5);
    }
    assert(vstd::arithmetic::power::pow(256, 8) == 0x1_0000_0000_0000_0000) by {
        reveal_with_fuel(vstd::arithmetic::power::pow, 9);
    }
    le_bytes_len(a.id_bytes().len(), 4);
    le_bytes_len(b.id_bytes().len(), 4);
    le_bytes_len(a.amount as nat, 8);
    le_bytes_len(b.amount as nat, 8);
    le_bytes_len(twos_complement(a.start_date as int), 8);
    le_bytes_len(twos_complement(b.start_date as int), 8);
    le_bytes_len(twos_complement(a.end_date as int), 8);
    le_bytes_len(twos_complement(b.end_date as int), 8);
    message_len(a);
    message_len(b);

    assert(m.subrange(0, 4) =~= le_bytes(a.id_bytes().len(), 4));
    assert(m.subrange(0, 4) =~= le_bytes(b.id_bytes().len(), 4));
    le_bytes_tell_apart(a.id_bytes().len(), b.id_bytes().len(), 4);
    assert(n == k);

    assert(m.subrange(4, 4 + n) =~= a.id_bytes());
    assert(m.subrange(4, 4 + n) =~= b.id_bytes());
    assert(a.booking_id@ == b.booking_id@) by {
        vstd::utf8::encode_utf8_decode_utf8(a.booking_id@);
        vstd::utf8::encode_utf8_decode_utf8(b.booking_id@);
    }

    assert(m.subrange(4 + n, 12 + n) =~= le_bytes(a.amount as nat, 8));
    assert(m.subrange(4 + n, 12 + n) =~= le_bytes(b.amount as nat, 8));
    le_bytes_tell_apart(a.amount as nat, b.amount as nat, 8);

    assert(m.subrange(12 + n, 20 + n) =~= le_bytes(twos_complement(a.start_date as int), 8));
    assert(m.subrange(12 + n, 20 + n) =~= le_bytes(twos_complement(b.start_date as int), 8));
    le_bytes_tell_apart(
        twos_complement(a.start_date as int),
        twos_complement(b.start_date as int),
        8,
    );

    assert(m.subrange(20 + n, 28 + n) =~= le_bytes(twos_complement(a.end_date as int), 8));
    assert(m.subrange(20 + n, 28 + n) =~= le_bytes(twos_complement(b.end_date as int), 8));
    le_bytes_tell_apart(
        twos_complement(a.end_date as int),
        twos_complement(b.end_date as int),
        8,
    );

    assert(m.subrange(28 + n, 60 + n) =~= a.host_wallet@);
    assert(m.subrange(28 + n, 60 + n) =~= b.host_wallet@);
    assert(m.subrange(60 + n, 92 + n) =~= a.oracle_pubkey@);
    assert(m.subrange(60 + n, 92 + n) =~= b.oracle_pubkey@);
    assert(m[92 + n] == a.tier_index);
    assert(m[92 + n] == b.tier_index);
    assert(m.subrange(93 + n, 125 + n) =~= a.investor_wallet@);
    assert(m.subrange(93 + n, 125 + n) =~= b.investor_wallet@);
}

} // verus!
