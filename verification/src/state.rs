//! The records that the protocol keeps.

use vstd::prelude::*;

use crate::address::Address;
use crate::calculator::{checked_difference, checked_sum};
use crate::error::ErrorCode;

verus! {

/// Longest booking identifier that an obligation can hold, in bytes of UTF-8.
pub const MAX_BOOKING_ID_LEN: usize = 32;

/// Whether a booking identifier is short enough to be stored.
pub open spec fn booking_id_fits(id: Seq<char>) -> bool {
    vstd::utf8::encode_utf8(id).len() <= MAX_BOOKING_ID_LEN
}

/// The tag from which an integrator's signing capability is derived: the
/// ASCII text `integrator`.
pub const INTEGRATOR_TAG: [u8; 10] = [105, 110, 116, 101, 103, 114, 97, 116, 111, 114];

/// The tag from which an obligation's signing capability is derived: the
/// ASCII text `obligation`.
pub const OBLIGATION_TAG: [u8; 10] = [111, 98, 108, 105, 103, 97, 116, 105, 111, 110];

/// The tag from which the pool's signing capability is derived: the ASCII
/// text `pool_vault`.
pub const POOL_TAG: [u8; 10] = [112, 111, 111, 108, 95, 118, 97, 117, 108, 116];

/// The profit bucket chosen when a booking is minted.
#[derive(Clone, Copy, Debug, PartialEq, Eq, Structural)]
pub enum ProfitTier {
    OneMonth,
    ThreeMonth,
    SixMonth,
    TwelveMonth,
}

/// The term an investor commits liquidity for.
#[derive(Clone, Copy, Debug, PartialEq, Eq, Structural)]
pub enum InvestmentTerm {
    OneMonth,
    ThreeMonths,
    SixMonths,
    TwelveMonths,
}

/// The tier that an index stands for; indices from four on stand for none.
pub open spec fn tier_at(index: int) -> Option<ProfitTier> {
    if index == 0 {
        Some(ProfitTier::OneMonth)
    } else if index == 1 {
        Some(ProfitTier::ThreeMonth)
    } else if index == 2 {
        Some(ProfitTier::SixMonth)
    } else if index == 3 {
        Some(ProfitTier::TwelveMonth)
    } else {
        None
    }
}

impl ProfitTier {
    /// The place of this tier among the four, counted from zero.
    pub open spec fn position(self) -> int {
        match self {
            ProfitTier::OneMonth => 0,
            ProfitTier::ThreeMonth => 1,
            ProfitTier::SixMonth => 2,
            ProfitTier::TwelveMonth => 3,
        }
    }

    /// The tier selected by `index`, or `InvalidTier` for an index above three.
    pub fn from_index(index: u8) -> (r: Result<ProfitTier, ErrorCode>)
        ensures
            match tier_at(index as int) {
                Some(tier) => r == Ok::<ProfitTier, ErrorCode>(tier),
                None => r == Err::<ProfitTier, ErrorCode>(ErrorCode::InvalidTier),
            },
    {
        match index {
            0 => Ok(ProfitTier::OneMonth),
            1 => Ok(ProfitTier::ThreeMonth),
            2 => Ok(ProfitTier::SixMonth),
            3 => Ok(ProfitTier::TwelveMonth),
            _ => Err(ErrorCode::InvalidTier),
        }
    }

    /// The index that selects this tier.
    pub fn index(self) -> (i: u8)
        ensures
            i == self.position(),
    {
        match self {
            ProfitTier::OneMonth => 0,
            ProfitTier::ThreeMonth => 1,
            ProfitTier::SixMonth => 2,
            ProfitTier::TwelveMonth => 3,
        }
    }
}

/// Tiers and the indices zero to three correspond one to one.
pub proof fn tier_index_round_trip(tier: ProfitTier, index: int)
    ensures
        tier_at(tier.position()) == Some(tier),
        tier_at(index) is Some <==> 0 <= index <= 3,
        tier_at(index) matches Some(t) ==> t.position() == index,
{
}

/// A platform that may mint obligations on behalf of hosts. Obligations are
/// minted only while it is active.
#[derive(Clone, Copy, Debug, PartialEq, Eq)]
pub struct IntegratorConfig {
    /// The nonce of the record's signing capability.
    pub bump: u8,
    /// Whether the integrator may mint.
    pub is_active: bool,
    /// The wallet that manages the record; the oracle that attests for this
    /// integrator signs with its key.
    pub authority: Address,
}

/// One booking, the collateral unit bound to it and the state of the advance
/// made against it.
#[derive(Clone, Debug, PartialEq, Eq)]
pub struct BookingObligation {
    /// The booking's identifier, at most `MAX_BOOKING_ID_LEN` bytes of text.
    pub booking_id: String,
    /// The value of the booking in cash units: the principal of a settlement.
    pub booking_value: u64,
    /// Room for the most that may be advanced; no operation sets it.
    pub max_principal: u64,
    /// Room for the amount advanced; no operation sets it.
    pub borrowed_amount: u64,
    /// When the booking starts, in seconds.
    pub start_date: i64,
    /// When the booking ends, in seconds.
    pub end_date: i64,
    /// The host, who alone may settle and withdraw.
    pub host_wallet: Address,
    /// The identity recorded for the integrator's side: the investor that
    /// the attestation names.
    pub integrator_wallet: Address,
    /// The collateral asset bound to this obligation.
    pub nft_mint: Address,
    /// Whether the collateral is locked against an advance.
    pub is_locked: bool,
    /// Whether the obligation was settled or liquidated. Once set it stays.
    pub is_settled: bool,
    /// The profit tier chosen at mint.
    pub tier: ProfitTier,
    /// The nonce of the obligation's signing capability.
    pub bump: u8,
}

/// An asset that can be advanced, with its loan-to-value ratio in basis points.
#[derive(Clone, Copy, Debug, PartialEq, Eq)]
pub struct SupportedToken {
    /// The identity of the asset.
    pub mint: Address,
    /// The loan-to-value ratio in basis points; 10000 is one hundred percent.
    pub ltv_bps: u16,
    /// Whether the asset can be used.
    pub is_active: bool,
    /// The nonce of the record's signing capability.
    pub bump: u8,
}

/// What one investor has put into the pool and earned there.
#[derive(Clone, Copy, Debug, PartialEq, Eq)]
pub struct Position {
    /// The investor.
    pub owner: Address,
    /// What the investor paid in.
    pub principal: u64,
    /// What the investor earned.
    pub realized_profit: u64,
    /// Room for the time from which the position may be withdrawn; no
    /// operation reads or sets it.
    pub unlock_ts: i64,
    /// The nonce of the record's signing capability.
    pub bump: u8,
}

/// The pool's own account of the liquidity it holds for all positions.
#[derive(Clone, Copy, Debug, PartialEq, Eq)]
pub struct PoolVault {
    /// The cash that the pool counts as its own to pay out.
    pub total_liquidity_tracked: u64,
    /// The nonce of the pool's signing capability.
    pub bump: u8,
}

/// Where an obligation stands in its life, as its two flags tell it.
#[derive(Clone, Copy, Debug, PartialEq, Eq, Structural)]
pub enum Phase {
    /// Minted, collateral with the host.
    Minted,
    /// Collateral in custody, advance paid out.
    Locked,
    /// Settled and unlocked: ready to be withdrawn.
    Released,
    /// Settled while still locked: the collateral was seized, or it was
    /// locked again after a settlement.
    Held,
}

/// The bytes of a tag, one after the other.
fn tag_bytes(tag: &[u8; 10]) -> (v: Vec<u8>)
    ensures
        v@ == tag@,
{
    let mut v: Vec<u8> = Vec::new();
    let mut i: usize = 0;
    while i < 10
        invariant
            i <= 10,
            v@ == tag@.subrange(0, i as int),
        decreases 10 - i,
    {
        v.push(tag[i]);
        i = i + 1;
        assert(v@ =~= tag@.subrange(0, i as int));
    }
    assert(v@ =~= tag@);
    v
}

/// The seeds `rows`, each as the sequence of its bytes.
pub open spec fn seed_rows(rows: Seq<Vec<u8>>) -> Seq<Seq<u8>> {
    Seq::new(rows.len(), |i: int| rows[i]@)
}

impl IntegratorConfig {
    /// The seeds of the signing capability of the integrator whose record
    /// is derived from `wallet`: the integrator tag, the wallet's identity,
    /// and the recorded bump.
    pub open spec fn capability_seeds(&self, wallet: Address) -> Seq<Seq<u8>> {
        seq![INTEGRATOR_TAG@, wallet@, seq![self.bump]]
    }

    /// The seeds with which the integrator's record signs for the one
    /// collateral unit that a mint brings into being.
    pub fn signer_seeds(&self, wallet: &Address) -> (seeds: Vec<Vec<u8>>)
        ensures
            seed_rows(seeds@) == self.capability_seeds(*wallet),
    {
        let mut seeds: Vec<Vec<u8>> = Vec::new();
        seeds.push(tag_bytes(&INTEGRATOR_TAG));
        seeds.push(wallet.to_vec());
        let mut nonce: Vec<u8> = Vec::new();
        nonce.push(self.bump);
        seeds.push(nonce);
        assert(seeds@[2]@ =~= seq![self.bump]);
        assert(seed_rows(seeds@) =~= self.capability_seeds(*wallet));
        seeds
    }
}

impl BookingObligation {
    /// The phase that the flags `is_locked` and `is_settled` describe.
    pub open spec fn phase(&self) -> Phase {
        if self.is_settled {
            if self.is_locked {
                Phase::Held
            } else {
                Phase::Released
            }
        } else {
            if self.is_locked {
                Phase::Locked
            } else {
                Phase::Minted
            }
        }
    }

    /// The booking identifier fits the space that a stored obligation has for it.
    pub open spec fn well_formed(&self) -> bool {
        booking_id_fits(self.booking_id@)
    }

    /// The seeds of this obligation's signing capability: the obligation tag,
    /// the identity of the bound collateral asset, and the recorded bump.
    pub open spec fn capability_seeds(&self) -> Seq<Seq<u8>> {
        seq![OBLIGATION_TAG@, self.nft_mint@, seq![self.bump]]
    }

    /// The seeds with which the obligation signs for transfers out of its
    /// own custody account.
    pub fn signer_seeds(&self) -> (seeds: Vec<Vec<u8>>)
        ensures
            seed_rows(seeds@) == self.capability_seeds(),
    {
        let mut seeds: Vec<Vec<u8>> = Vec::new();
        seeds.push(tag_bytes(&OBLIGATION_TAG));
        seeds.push(self.nft_mint.to_vec());
        let mut nonce: Vec<u8> = Vec::new();
        nonce.push(self.bump);
        seeds.push(nonce);
        assert(seeds@[2]@ =~= seq![self.bump]);
        assert(seed_rows(seeds@) =~= self.capability_seeds());
        seeds
    }
}

impl PoolVault {
    /// The seeds of the pool's signing capability: the pool tag and the
    /// recorded bump.
    pub open spec fn capability_seeds(&self) -> Seq<Seq<u8>> {
        seq![POOL_TAG@, seq![self.bump]]
    }

    /// The seeds with which the pool signs for transfers out of its own
    /// custody accounts.
    pub fn signer_seeds(&self) -> (seeds: Vec<Vec<u8>>)
        ensures
            seed_rows(seeds@) == self.capability_seeds(),
    {
        let mut seeds: Vec<Vec<u8>> = Vec::new();
        seeds.push(tag_bytes(&POOL_TAG));
        let mut nonce: Vec<u8> = Vec::new();
        nonce.push(self.bump);
        seeds.push(nonce);
        assert(seeds@[1]@ =~= seq![self.bump]);
        assert(seed_rows(seeds@) =~= self.capability_seeds());
        seeds
    }

    /// Adds `amount` to the tracked liquidity. Fails with `MathOverflow`, and
    /// changes nothing, when the sum does not fit in 64 bits.
    pub fn credit(&mut self, amount: u64) -> (r: Result<(), ErrorCode>)
        ensures
            final(self).bump == old(self).bump,
            old(self).total_liquidity_tracked + amount <= u64::MAX ==> r == Ok::<(), ErrorCode>(())
                && final(self).total_liquidity_tracked == old(self).total_liquidity_tracked
                + amount,
            old(self).total_liquidity_tracked + amount > u64::MAX ==> r == Err::<(), ErrorCode>(
                ErrorCode::MathOverflow,
            ) && *final(self) == *old(self),
    {
        match checked_sum(self.total_liquidity_tracked, amount) {
            Ok(total) => {
                self.total_liquidity_tracked = total;
                Ok(())
            },
            Err(e) => Err(e),
        }
    }

    /// Takes `amount` from the tracked liquidity. Fails with `MathOverflow`,
    /// and changes nothing, when less than `amount` is tracked.
    pub fn debit(&mut self, amount: u64) -> (r: Result<(), ErrorCode>)
        ensures
            final(self).bump == old(self).bump,
            amount <= old(self).total_liquidity_tracked ==> r == Ok::<(), ErrorCode>(())
                && final(self).total_liquidity_tracked == old(self).total_liquidity_tracked
                - amount,
            amount > old(self).total_liquidity_tracked ==> r == Err::<(), ErrorCode>(
                ErrorCode::MathOverflow,
            ) && *final(self) == *old(self),
    {
        match checked_difference(self.total_liquidity_tracked, amount) {
            Ok(rest) => {
                self.total_liquidity_tracked = rest;
                Ok(())
            },
            Err(e) => Err(e),
        }
    }
}

} // verus!
