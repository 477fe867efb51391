//! The named failures of the protocol.

use vstd::prelude::*;

verus! {

/// Why a requested transition was rejected. A rejected transition leaves every
/// record as it was.
#[derive(Clone, Copy, Debug, PartialEq, Eq, Structural)]
pub enum ErrorCode {
    /// The integrator is not authorized or is currently inactive.
    IntegratorNotAuthorized,
    /// The signer is not the authorized owner of this booking hub.
    NotHubOwner,
    /// This booking has already started and cannot be modified.
    BookingAlreadyStarted,
    /// The asset is already locked in a financial cycle.
    AlreadyLocked,
    /// The provided oracle public key does not match the protocol config.
    InvalidOracleKey,
    /// The reconstructed message does not match the oracle's signature.
    OracleMessageMismatch,
    /// The instruction index for introspection is out of bounds.
    InvalidInstructionIndex,
    /// The expected program ID was not found in the instruction sysvar.
    InvalidProgramId,
    /// A mathematical operation resulted in an overflow or underflow.
    MathOverflow,
    /// The account data offset is invalid for the requested operation.
    InvalidOffset,
    /// The rental period has not yet ended. Collateral is still locked.
    BookingNotYetEnded,
    /// Attempted to settle an already settled obligation.
    AlreadySettled,
    /// The obligation has not yet been settled.
    NotYetSettled,
    /// The obligation is still locked.
    ObligationStillLocked,
    /// The host is not the authorized owner of this obligation.
    NotAuthorizedOwner,
    /// Liquidity is currently locked.
    LiquidityLocked,
    /// The selected profit tier is invalid.
    InvalidTier,
    /// The grace period has not yet ended.
    GracePeriodNotOver,
}

/// The number from which the protocol's error codes count.
pub const ERROR_CODE_OFFSET: u32 = 6000;

impl ErrorCode {
    /// The place of this error in the list of errors, counted from zero.
    pub open spec fn ordinal(self) -> nat {
        match self {
            ErrorCode::IntegratorNotAuthorized => 0,
            ErrorCode::NotHubOwner => 1,
            ErrorCode::BookingAlreadyStarted => 2,
            ErrorCode::AlreadyLocked => 3,
            ErrorCode::InvalidOracleKey => 4,
            ErrorCode::OracleMessageMismatch => 5,
            ErrorCode::InvalidInstructionIndex => 6,
            ErrorCode::InvalidProgramId => 7,
            ErrorCode::MathOverflow => 8,
            ErrorCode::InvalidOffset => 9,
            ErrorCode::BookingNotYetEnded => 10,
            ErrorCode::AlreadySettled => 11,
            ErrorCode::NotYetSettled => 12,
            ErrorCode::ObligationStillLocked => 13,
            ErrorCode::NotAuthorizedOwner => 14,
            ErrorCode::LiquidityLocked => 15,
            ErrorCode::InvalidTier => 16,
            ErrorCode::GracePeriodNotOver => 17,
        }
    }

    /// What this error says to a reader.
    pub open spec fn text(self) -> Seq<char> {
        match self {
            ErrorCode::IntegratorNotAuthorized => {
                "The integrator is not authorized or is currently inactive."@
            },
            ErrorCode::NotHubOwner => {
                "The signer is not the authorized owner of this booking hub."@
            },
            ErrorCode::BookingAlreadyStarted => {
                "This booking has already started and cannot be modified."@
            },
            ErrorCode::AlreadyLocked => "The asset is already locked in a financial cycle."@,
            ErrorCode::InvalidOracleKey => {
                "The provided oracle public key does not match the protocol config."@
            },
            ErrorCode::OracleMessageMismatch => {
                "The reconstructed message does not match the oracle's signature."@
            },
            ErrorCode::InvalidInstructionIndex => {
                "The instruction index for introspection is out of bounds."@
            },
            ErrorCode::InvalidProgramId => {
                "The expected program ID was not found in the instruction sysvar."@
            },
            ErrorCode::MathOverflow => {
                "A mathematical operation resulted in an overflow or underflow."@
            },
            ErrorCode::InvalidOffset => {
                "The account data offset is invalid for the requested operation."@
            },
            ErrorCode::BookingNotYetEnded => {
                "The rental period has not yet ended. Collateral is still locked."@
            },
            ErrorCode::AlreadySettled => "Attempted to settle an already settled obligation."@,
            ErrorCode::NotYetSettled => "The obligation has not yet been settled."@,
            ErrorCode::ObligationStillLocked => "The obligation is still locked."@,
            ErrorCode::NotAuthorizedOwner => {
                "The host is not the authorized owner of this obligation."@
            },
            ErrorCode::LiquidityLocked => "Liquidity is currently locked."@,
            ErrorCode::InvalidTier => "The selected profit tier is invalid."@,
            ErrorCode::GracePeriodNotOver => "The grace period has not yet ended."@,
        }
    }

    /// The stable number under which this error reaches the caller: the
    /// offset plus the error's place in the list.
    pub fn code(&self) -> (c: u32)
        ensures
            c == ERROR_CODE_OFFSET + self.ordinal(),
    {
        match self {
            ErrorCode::IntegratorNotAuthorized => 6000,
            ErrorCode::NotHubOwner => 6001,
            ErrorCode::BookingAlreadyStarted => 6002,
            ErrorCode::AlreadyLocked => 6003,
            ErrorCode::InvalidOracleKey => 6004,
            ErrorCode::OracleMessageMismatch => 6005,
            ErrorCode::InvalidInstructionIndex => 6006,
            ErrorCode::InvalidProgramId => 6007,
            ErrorCode::MathOverflow => 6008,
            ErrorCode::InvalidOffset => 6009,
            ErrorCode::BookingNotYetEnded => 6010,
            ErrorCode::AlreadySettled => 6011,
            ErrorCode::NotYetSettled => 6012,
            ErrorCode::ObligationStillLocked => 6013,
            ErrorCode::NotAuthorizedOwner => 6014,
            ErrorCode::LiquidityLocked => 6015,
            ErrorCode::InvalidTier => 6016,
            ErrorCode::GracePeriodNotOver => 6017,
        }
    }

    /// What this error says to a reader.
    pub fn message(&self) -> (m: &'static str)
        ensures
            m@ == self.text(),
    {
        match self {
            ErrorCode::IntegratorNotAuthorized => {
                "The integrator is not authorized or is currently inactive."
            },
            ErrorCode::NotHubOwner => "The signer is not the authorized owner of this booking hub.",
            ErrorCode::BookingAlreadyStarted => {
                "This booking has already started and cannot be modified."
            },
            ErrorCode::AlreadyLocked => "The asset is already locked in a financial cycle.",
            ErrorCode::InvalidOracleKey => {
                "The provided oracle public key does not match the protocol config."
            },
            ErrorCode::OracleMessageMismatch => {
                "The reconstructed message does not match the oracle's signature."
            },
            ErrorCode::InvalidInstructionIndex => {
                "The instruction index for introspection is out of bounds."
            },
            ErrorCode::InvalidProgramId => {
                "The expected program ID was not found in the instruction sysvar."
            },
            ErrorCode::MathOverflow => {
                "A mathematical operation resulted in an overflow or underflow."
            },
            ErrorCode::InvalidOffset => {
                "The account data offset is invalid for the requested operation."
            },
            ErrorCode::BookingNotYetEnded => {
                "The rental period has not yet ended. Collateral is still locked."
            },
            ErrorCode::AlreadySettled => "Attempted to settle an already settled obligation.",
            ErrorCode::NotYetSettled => "The obligation has not yet been settled.",
            ErrorCode::ObligationStillLocked => "The obligation is still locked.",
            ErrorCode::NotAuthorizedOwner => {
                "The host is not the authorized owner of this obligation."
            },
            ErrorCode::LiquidityLocked => "Liquidity is currently locked.",
            ErrorCode::InvalidTier => "The selected profit tier is invalid.",
            ErrorCode::GracePeriodNotOver => "The grace period has not yet ended.",
        }
    }
}

/// No two errors share a code.
pub proof fn codes_are_distinct(a: ErrorCode, b: ErrorCode)
    ensures
        a.ordinal() == b.ordinal() ==> a == b,
{
}

} // verus!
