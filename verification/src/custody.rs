//! Custody transfer gateway: the orders that the lifecycle hands out, and a
//! model of the accounts they act on.
//!
//! The library moves nothing itself. Each operation returns the orders that
//! have to be carried out, in their order and all or none, before its new
//! state may be kept.

use vstd::prelude::*;

verus! {

/// What is held in custody: the unit that stands for a booking, or cash.
#[derive(Clone, Copy, Debug, PartialEq, Eq, Hash, Structural)]
pub enum Asset {
    Collateral,
    Cash,
}

/// Whose account holds an asset.
#[derive(Clone, Copy, Debug, PartialEq, Eq, Hash, Structural)]
pub enum Custodian {
    /// The host's own accounts.
    Host,
    /// The custody account that the obligation owns.
    Obligation,
    /// The custody accounts that the pool owns.
    Pool,
    /// The investor's own account.
    Investor,
}

/// On whose word an order is carried out.
#[derive(Clone, Copy, Debug, PartialEq, Eq, Hash, Structural)]
pub enum Authority {
    /// The wallet that signed the request.
    Signer,
    /// The signing capability of the integrator's record.
    Integrator,
    /// The signing capability of the obligation.
    Obligation,
    /// The signing capability of the pool.
    Pool,
}

/// A record whose storage can be given back.
#[derive(Clone, Copy, Debug, PartialEq, Eq, Hash, Structural)]
pub enum Record {
    Obligation,
    Position,
}

/// One thing that the surrounding program has to do for an operation.
#[derive(Clone, Copy, Debug, PartialEq, Eq, Hash, Structural)]
pub enum Order {
    /// Bring `amount` new units of collateral into being at `to`.
    Issue { to: Custodian, amount: u64, authority: Authority },
    /// Move `amount` of `asset` from one account to another.
    Transfer { asset: Asset, from: Custodian, to: Custodian, amount: u64, authority: Authority },
    /// Give back the storage of `record`; what was paid for it goes to `refund_to`.
    Close { record: Record, refund_to: Custodian },
}

/// Whether `authority` may move assets out of the account of `from`. A wallet
/// speaks for its own accounts, and a record's capability for the custody
/// account of that record and for no other.
pub open spec fn may_release(authority: Authority, from: Custodian) -> bool {
    match from {
        Custodian::Host => authority == Authority::Signer,
        Custodian::Investor => authority == Authority::Signer,
        Custodian::Obligation => authority == Authority::Obligation,
        Custodian::Pool => authority == Authority::Pool,
    }
}

/// What every account holds.
pub struct Ledger {
    pub holdings: Map<(Asset, Custodian), nat>,
}

impl Ledger {
    /// The amount of `asset` in the account of `who`.
    pub open spec fn held(self, asset: Asset, who: Custodian) -> nat {
        if self.holdings.dom().contains((asset, who)) {
            self.holdings[(asset, who)]
        } else {
            0
        }
    }

    /// The ledger with the holding of `who` in `asset` set to `amount`.
    pub open spec fn with(self, asset: Asset, who: Custodian, amount: nat) -> Ledger {
        Ledger { holdings: self.holdings.insert((asset, who), amount) }
    }

    /// The ledger after `order` was carried out, or `None` when custody
    /// refuses it: for want of authority, or because the source holds less
    /// than is to be moved.
    pub open spec fn after(self, order: Order) -> Option<Ledger> {
        match order {
            Order::Issue { to, amount, authority } => {
                if authority == Authority::Integrator {
                    Some(
                        self.with(
                            Asset::Collateral,
                            to,
                            self.held(Asset::Collateral, to) + amount as nat,
                        ),
                    )
                } else {
                    None
                }
            },
            Order::Transfer { asset, from, to, amount, authority } => {
                if may_release(authority, from) && self.held(asset, from) >= amount {
                    let taken = self.with(asset, from, (self.held(asset, from) - amount) as nat);
                    Some(taken.with(asset, to, taken.held(asset, to) + amount as nat))
                } else {
                    None
                }
            },
            Order::Close { record, refund_to } => Some(self),
        }
    }

    /// The ledger after all of `orders` were carried out one after the
    /// other, or `None` when custody refuses one of them.
    pub open spec fn after_all(self, orders: Seq<Order>) -> Option<Ledger>
        decreases orders.len(),
    {
        if orders.len() == 0 {
            Some(self)
        } else {
            match self.after(orders[0]) {
                Some(next) => next.after_all(orders.drop_first()),
                None => None,
            }
        }
    }

    /// All that exists of `asset`, in whatever account.
    pub open spec fn supply(self, asset: Asset) -> nat {
        self.held(asset, Custodian::Host) + self.held(asset, Custodian::Obligation) + self.held(
            asset,
            Custodian::Pool,
        ) + self.held(asset, Custodian::Investor)
    }
}

/// A transfer neither makes nor destroys anything: what exists of each asset
/// is the same before and after.
pub proof fn transfer_keeps_supply(
    ledger: Ledger,
    asset: Asset,
    from: Custodian,
    to: Custodian,
    amount: u64,
    authority: Authority,
    other: Asset,
)
    requires
        ledger.after(Order::Transfer { asset, from, to, amount, authority }) is Some,
    ensures
        ledger.after(Order::Transfer { asset, from, to, amount, authority })->0.supply(other)
            == ledger.supply(other),
{
}

} // verus!
