//! Withdraw: the host closes a settled obligation and takes back whatever
//! collateral its custody still holds.

use vstd::prelude::*;

use crate::address::Address;
use crate::custody::{Asset, Authority, Custodian, Order, Record};
use crate::error::ErrorCode;
use crate::state::BookingObligation;

verus! {

/// A request to withdraw from an obligation and close it.
#[derive(Clone, Debug, PartialEq, Eq)]
pub struct WithdrawCollateral {
    /// The wallet that signed the request.
    pub host: Address,
    pub obligation: BookingObligation,
    /// What the obligation's custody account holds of the collateral asset.
    pub vault_balance: u64,
}

/// Why a withdrawal is rejected, if it is; the first failing check names the
/// error. The obligation must be settled and unlocked, and the request must
/// come from its recorded host.
pub open spec fn rejection(ctx: WithdrawCollateral) -> Option<ErrorCode> {
    if !ctx.obligation.is_settled {
        Some(ErrorCode::NotYetSettled)
    } else if ctx.obligation.is_locked {
        Some(ErrorCode::ObligationStillLocked)
    } else if ctx.obligation.host_wallet@ != ctx.host@ {
        Some(ErrorCode::NotAuthorizedOwner)
    } else {
        None
    }
}

/// The orders of an accepted withdrawal: what is left in the obligation's
/// custody, if anything, goes to the host, and the obligation's storage is
/// given back.
pub open spec fn orders(ctx: WithdrawCollateral) -> Seq<Order> {
    let close = Order::Close { record: Record::Obligation, refund_to: Custodian::Host };
    if ctx.vault_balance > 0 {
        seq![
            Order::Transfer {
                asset: Asset::Collateral,
                from: Custodian::Obligation,
                to: Custodian::Host,
                amount: ctx.vault_balance,
                authority: Authority::Obligation,
            },
            close,
        ]
    } else {
        seq![close]
    }
}

/// Withdraws from the obligation of the request and closes it. This ends
/// the obligation's life: once the orders are carried out the record is gone.
///
/// The request is rejected with the error that `rejection` names. Otherwise
/// the orders of `orders` are returned.
pub fn handler(ctx: &WithdrawCollateral) -> (r: Result<Vec<Order>, ErrorCode>)
    ensures
        match r {
            Ok(issued) => rejection(*ctx) is None && issued@ == orders(*ctx),
            Err(e) => rejection(*ctx) == Some(e),
        },
{
    if !ctx.obligation.is_settled {
        return Err(ErrorCode::NotYetSettled);
    }
    if ctx.obligation.is_locked {
        return Err(ErrorCode::ObligationStillLocked);
    }
    if ctx.obligation.host_wallet != ctx.host {
        return Err(ErrorCode::NotAuthorizedOwner);
    }
    let mut issued: Vec<Order> = Vec::new();
    if ctx.vault_balance > 0 {
        issued.push(
            Order::Transfer {
                asset: Asset::Collateral,
                from: Custodian::Obligation,
                to: Custodian::Host,
                amount: ctx.vault_balance,
                authority: Authority::Obligation,
            },
        );
    }
    issued.push(Order::Close { record: Record::Obligation, refund_to: Custodian::Host });
    assert(issued@ =~= orders(*ctx));
    Ok(issued)
}

} // verus!
