//! The life of one obligation, told as steps of a world that holds the
//! obligation, the pool and the custody accounts, and what holds of every
//! step.

use vstd::prelude::*;

use crate::address::Address;
use crate::attestation::BookingProof;
use crate::custody::{may_release, Asset, Authority, Custodian, Ledger, Order};
use crate::error::ErrorCode;
use crate::handlers::deposit_collateral::DepositCollateral;
use crate::handlers::deposit_liquidity::DepositLiquidity;
use crate::handlers::liquidate_default::LiquidateDefault;
use crate::handlers::mint_booking::MintBooking;
use crate::handlers::settle_booking::SettleBooking;
use crate::handlers::withdraw_collateral::WithdrawCollateral;
use crate::handlers::withdraw_liquidity::WithdrawLiquidity;
use crate::handlers::{
    deposit_collateral, deposit_liquidity, liquidate_default, mint_booking, settle_booking,
    withdraw_collateral, withdraw_liquidity,
};
use crate::state::{BookingObligation, Phase, PoolVault, Position};

verus! {

/// One obligation, the pool, and what every custody account holds. The
/// obligation is `None` once it was withdrawn and its storage given back.
pub struct World {
    pub obligation: Option<BookingObligation>,
    pub pool: PoolVault,
    pub ledger: Ledger,
}

/// A request that can reach a world.
pub enum Operation {
    Lock { host: Address, funding_amount: u64 },
    Settle { host: Address, unix_timestamp: i64 },
    Liquidate { liquidator: Address, unix_timestamp: i64 },
    Withdraw { host: Address },
    Deposit { investor: Address, position: Position, position_bump: u8, amount: u64 },
    WithdrawLiquidity { investor: Address, position: Position },
}

/// What the obligation's custody account holds of the collateral asset, as
/// a request reads it.
pub open spec fn vault_balance(ledger: Ledger) -> u64 {
    if ledger.held(Asset::Collateral, Custodian::Obligation) <= u64::MAX {
        ledger.held(Asset::Collateral, Custodian::Obligation) as u64
    } else {
        u64::MAX
    }
}

/// The world in which the orders of an accepted request were carried out,
/// or `None` when custody refuses one of them.
pub open spec fn carried_out(
    obligation: Option<BookingObligation>,
    pool: PoolVault,
    ledger: Ledger,
    orders: Seq<Order>,
) -> Option<World> {
    match ledger.after_all(orders) {
        Some(next) => Some(World { obligation: obligation, pool: pool, ledger: next }),
        None => None,
    }
}

/// The world after `op`, or `None` when the request is rejected or custody
/// refuses one of its orders: the world then stays as it is. Requests about
/// the obligation need it to exist.
pub open spec fn step(world: World, op: Operation) -> Option<World> {
    match op {
        Operation::Lock { host, funding_amount } => {
            if world.obligation is Some {
                let ctx = DepositCollateral {
                    host: host,
                    obligation: world.obligation->0,
                    pool_vault: world.pool,
                };
                if deposit_collateral::rejection(ctx, funding_amount) is None {
                    let done = deposit_collateral::effect(ctx, funding_amount);
                    carried_out(
                        Some(done.obligation),
                        done.pool_vault,
                        world.ledger,
                        deposit_collateral::orders(ctx, funding_amount),
                    )
                } else {
                    None
                }
            } else {
                None
            }
        },
        Operation::Settle { host, unix_timestamp } => {
            if world.obligation is Some {
                let ctx = SettleBooking {
                    host: host,
                    obligation: world.obligation->0,
                    pool_vault: world.pool,
                    unix_timestamp: unix_timestamp,
                };
                if settle_booking::rejection(ctx) is None {
                    let done = settle_booking::effect(ctx);
                    carried_out(
                        Some(done.obligation),
                        done.pool_vault,
                        world.ledger,
                        settle_booking::orders(ctx),
                    )
                } else {
                    None
                }
            } else {
                None
            }
        },
        Operation::Liquidate { liquidator, unix_timestamp } => {
            if world.obligation is Some {
                let ctx = LiquidateDefault {
                    liquidator: liquidator,
                    obligation: world.obligation->0,
                    unix_timestamp: unix_timestamp,
                };
                if liquidate_default::rejection(ctx) is None {
                    let done = liquidate_default::effect(ctx);
                    carried_out(
                        Some(done.obligation),
                        world.pool,
                        world.ledger,
                        liquidate_default::orders(ctx),
                    )
                } else {
                    None
                }
            } else {
                None
            }
        },
        Operation::Withdraw { host } => {
            if world.obligation is Some {
                let ctx = WithdrawCollateral {
                    host: host,
                    obligation: world.obligation->0,
                    vault_balance: vault_balance(world.ledger),
                };
                if withdraw_collateral::rejection(ctx) is None {
                    carried_out(None, world.pool, world.ledger, withdraw_collateral::orders(ctx))
                } else {
                    None
                }
            } else {
                None
            }
        },
        Operation::Deposit { investor, position, position_bump, amount } => {
            let ctx = DepositLiquidity {
                investor: investor,
                position: position,
                position_bump: position_bump,
                pool_vault: world.pool,
            };
            if deposit_liquidity::rejection(ctx, amount) is None {
                carried_out(
                    world.obligation,
                    deposit_liquidity::effect(ctx, amount).pool_vault,
                    world.ledger,
                    deposit_liquidity::orders(ctx, amount),
                )
            } else {
                None
            }
        },
        Operation::WithdrawLiquidity { investor, position } => {
            let ctx = WithdrawLiquidity {
                investor: investor,
                position: position,
                pool_vault: world.pool,
            };
            if withdraw_liquidity::rejection(ctx) is None {
                carried_out(
                    world.obligation,
                    withdraw_liquidity::effect(ctx).pool_vault,
                    world.ledger,
                    withdraw_liquidity::orders(ctx),
                )
            } else {
                None
            }
        },
    }
}

/// The world after `op` was tried: the next world when the step is taken,
/// the same world when it is not.
pub open spec fn advance(world: World, op: Operation) -> World {
    match step(world, op) {
        Some(next) => next,
        None => world,
    }
}

/// The world after each of `ops` was tried in turn.
pub open spec fn run(world: World, ops: Seq<Operation>) -> World
    decreases ops.len(),
{
    if ops.len() == 0 {
        world
    } else {
        run(advance(world, ops[0]), ops.drop_first())
    }
}

/// Whether the world's obligation exists and is settled.
pub open spec fn is_settled(world: World) -> bool {
    world.obligation matches Some(o) && o.is_settled
}

/// Whether the world's obligation exists and is locked.
pub open spec fn is_locked(world: World) -> bool {
    world.obligation matches Some(o) && o.is_locked
}

/// How often, while `ops` are tried in turn, an obligation that was not
/// settled becomes settled.
pub open spec fn settlements(world: World, ops: Seq<Operation>) -> nat
    decreases ops.len(),
{
    if ops.len() == 0 {
        0
    } else {
        let next = advance(world, ops[0]);
        let here: nat = if world.obligation is Some && !is_settled(world) && is_settled(next) {
            1
        } else {
            0
        };
        here + settlements(next, ops.drop_first())
    }
}

/// How often, while `ops` are tried in turn, a settlement or a liquidation
/// is carried out.
pub open spec fn paths_taken(world: World, ops: Seq<Operation>) -> nat
    decreases ops.len(),
{
    if ops.len() == 0 {
        0
    } else {
        let here: nat = if (ops[0] is Settle || ops[0] is Liquidate) && step(world, ops[0])
            is Some {
            1
        } else {
            0
        };
        here + paths_taken(advance(world, ops[0]), ops.drop_first())
    }
}

/// Whether two obligations record the same booking on the same terms: they
/// differ at most in being locked and in being settled.
pub open spec fn same_terms(a: BookingObligation, b: BookingObligation) -> bool {
    a == BookingObligation { is_locked: a.is_locked, is_settled: a.is_settled, ..b }
}

/// Custody and records agree. Exactly one collateral unit exists. While the
/// obligation is locked and not settled the unit lies in the obligation's
/// custody; while the obligation is unlocked that custody is empty; and the
/// pool tracks no more liquidity than its cash account holds.
pub open spec fn coherent(world: World) -> bool {
    let in_custody = world.ledger.held(Asset::Collateral, Custodian::Obligation);
    &&& world.ledger.supply(Asset::Collateral) == 1
    &&& world.pool.total_liquidity_tracked <= world.ledger.held(Asset::Cash, Custodian::Pool)
    &&& world.obligation matches Some(o) ==> match o.phase() {
        Phase::Minted => in_custody == 0,
        Phase::Locked => in_custody == 1,
        Phase::Released => in_custody == 0,
        Phase::Held => in_custody <= 1,
    }
}

/// The world that a mint brings about: the minted obligation, a pool, and a
/// ledger in which the one order of the mint was carried out.
pub open spec fn born(
    ctx: MintBooking,
    booking_data: BookingProof,
    pool: PoolVault,
    ledger: Ledger,
) -> Option<World> {
    if mint_booking::rejection(ctx, booking_data) is None {
        carried_out(
            Some(mint_booking::effect(ctx, booking_data).booking_obligation),
            pool,
            ledger,
            mint_booking::orders(),
        )
    } else {
        None
    }
}

proof fn after_all_of_one(ledger: Ledger, a: Order)
    ensures
        ledger.after_all(seq![a]) == ledger.after(a),
{
    reveal_with_fuel(Ledger::after_all, 2);
    assert(seq![a].drop_first() =~= Seq::<Order>::empty());
}

proof fn after_all_of_two(ledger: Ledger, a: Order, b: Order)
    ensures
        ledger.after_all(seq![a, b]) == match ledger.after(a) {
            Some(next) => next.after(b),
            None => None,
        },
{
    reveal_with_fuel(Ledger::after_all, 3);
    assert(seq![a, b].drop_first() =~= seq![b]);
    assert(seq![b].drop_first() =~= Seq::<Order>::empty());
}

/// A mint into accounts that hold none of the new collateral asset, beside
/// a pool that tracks no more than it holds, brings about a coherent world:
/// one unit exists, and the host has it.
pub proof fn mint_gives_coherent_world(
    ctx: MintBooking,
    booking_data: BookingProof,
    pool: PoolVault,
    ledger: Ledger,
)
    requires
        ledger.supply(Asset::Collateral) == 0,
        pool.total_liquidity_tracked <= ledger.held(Asset::Cash, Custodian::Pool),
        mint_booking::rejection(ctx, booking_data) is None,
    ensures
        ({
            &&& born(ctx, booking_data, pool, ledger) matches Some(world)
            &&& coherent(world)
            &&& world.ledger.held(Asset::Collateral, Custodian::Host) == 1
            &&& world.obligation matches Some(o)
            &&& o.phase() == Phase::Minted
        }),
{
    after_all_of_one(
        ledger,
        Order::Issue { to: Custodian::Host, amount: 1, authority: Authority::Integrator },
    );
}

/// Every step keeps custody and records in agreement.
pub proof fn step_keeps_coherence(world: World, op: Operation)
    requires
        coherent(world),
        step(world, op) is Some,
    ensures
        coherent(step(world, op)->0),
{
    match op {
        Operation::Lock { host, funding_amount } => {
            let ctx = DepositCollateral {
                host: host,
                obligation: world.obligation->0,
                pool_vault: world.pool,
            };
            let orders = deposit_collateral::orders(ctx, funding_amount);
            after_all_of_two(world.ledger, orders[0], orders[1]);
        },
        Operation::Settle { host, unix_timestamp } => {
            let ctx = SettleBooking {
                host: host,
                obligation: world.obligation->0,
                pool_vault: world.pool,
                unix_timestamp: unix_timestamp,
            };
            let orders = settle_booking::orders(ctx);
            after_all_of_two(world.ledger, orders[0], orders[1]);
        },
        Operation::Liquidate { liquidator, unix_timestamp } => {
            let ctx = LiquidateDefault {
                liquidator: liquidator,
                obligation: world.obligation->0,
                unix_timestamp: unix_timestamp,
            };
            let orders = liquidate_default::orders(ctx);
            after_all_of_one(world.ledger, orders[0]);
        },
        Operation::Withdraw { host } => {
            let ctx = WithdrawCollateral {
                host: host,
                obligation: world.obligation->0,
                vault_balance: vault_balance(world.ledger),
            };
            let orders = withdraw_collateral::orders(ctx);
            after_all_of_one(world.ledger, orders[0]);
        },
        Operation::Deposit { investor, position, position_bump, amount } => {
            let ctx = DepositLiquidity {
                investor: investor,
                position: position,
                position_bump: position_bump,
                pool_vault: world.pool,
            };
            let orders = deposit_liquidity::orders(ctx, amount);
            after_all_of_one(world.ledger, orders[0]);
        },
        Operation::WithdrawLiquidity { investor, position } => {
            let ctx = WithdrawLiquidity {
                investor: investor,
                position: position,
                pool_vault: world.pool,
            };
            let orders = withdraw_liquidity::orders(ctx);
            after_all_of_two(world.ledger, orders[0], orders[1]);
        },
    }
}

/// Whatever requests arrive and in whatever order, custody and records stay
/// in agreement.
pub proof fn run_keeps_coherence(world: World, ops: Seq<Operation>)
    requires
        coherent(world),
    ensures
        coherent(run(world, ops)),
    decreases ops.len(),
{
    if ops.len() > 0 {
        if step(world, ops[0]) is Some {
            step_keeps_coherence(world, ops[0]);
        }
        run_keeps_coherence(advance(world, ops[0]), ops.drop_first());
    }
}

/// Once settled, always settled: no step resets the flag, and no step brings
/// a withdrawn obligation back.
pub proof fn settled_for_good(world: World, op: Operation)
    requires
        step(world, op) is Some,
    ensures
        is_settled(world) && step(world, op)->0.obligation is Some ==> is_settled(
            step(world, op)->0,
        ),
        world.obligation is None ==> step(world, op)->0.obligation is None,
{
}

/// Only a settlement or a liquidation settles an obligation.
pub proof fn only_settlement_settles(world: World, op: Operation)
    requires
        world.obligation is Some,
        !is_settled(world),
        step(world, op) is Some,
        is_settled(step(world, op)->0),
    ensures
        op is Settle || op is Liquidate,
{
}

/// A settled obligation rejects every further settlement and every
/// liquidation as already settled, whoever asks and whenever.
pub proof fn settled_rejects_settlement(settle: SettleBooking, liquidate: LiquidateDefault)
    ensures
        settle.obligation.is_settled ==> settle_booking::rejection(settle) == Some(
            ErrorCode::AlreadySettled,
        ),
        liquidate.obligation.is_settled ==> liquidate_default::rejection(liquidate) == Some(
            ErrorCode::AlreadySettled,
        ),
        settle_booking::rejection(settle) is None ==> settle_booking::effect(
            settle,
        ).obligation.is_settled,
        liquidate_default::rejection(liquidate) is None ==> liquidate_default::effect(
            liquidate,
        ).obligation.is_settled,
{
}

/// Whatever requests arrive and in whatever order, an obligation becomes
/// settled at most once; one that is settled or withdrawn never does again.
pub proof fn settles_at_most_once(world: World, ops: Seq<Operation>)
    ensures
        settlements(world, ops) <= 1,
        is_settled(world) || world.obligation is None ==> settlements(world, ops) == 0,
    decreases ops.len(),
{
    if ops.len() > 0 {
        let next = advance(world, ops[0]);
        if step(world, ops[0]) is Some {
            settled_for_good(world, ops[0]);
        }
        settles_at_most_once(next, ops.drop_first());
    }
}

/// Settlement and liquidation exclude each other: whatever requests arrive
/// and in whatever order, at most one of them is ever carried out, and each
/// time the obligation becomes settled one of them was.
pub proof fn at_most_one_path(world: World, ops: Seq<Operation>)
    ensures
        paths_taken(world, ops) <= 1,
        world.obligation is Some ==> paths_taken(world, ops) == settlements(world, ops),
        is_settled(world) || world.obligation is None ==> paths_taken(world, ops) == 0,
    decreases ops.len(),
{
    if ops.len() > 0 {
        let next = advance(world, ops[0]);
        if step(world, ops[0]) is Some {
            settled_for_good(world, ops[0]);
        }
        at_most_one_path(next, ops.drop_first());
        settles_at_most_once(next, ops.drop_first());
    }
}

/// No step touches what the obligation records of its booking: identifier,
/// value, dates, identities, tier and bump stay as they were minted.
pub proof fn terms_are_kept(world: World, op: Operation)
    requires
        step(world, op) is Some,
        world.obligation is Some,
        step(world, op)->0.obligation is Some,
    ensures
        same_terms(world.obligation->0, step(world, op)->0.obligation->0),
        world.obligation->0.well_formed() ==> step(world, op)->0.obligation->0.well_formed(),
{
}

/// A locked obligation rejects every further lock as already locked, and an
/// accepted lock leaves the obligation locked.
pub proof fn locked_rejects_lock(
    first: DepositCollateral,
    amount: u64,
    second: DepositCollateral,
    again: u64,
)
    ensures
        second.obligation.is_locked ==> deposit_collateral::rejection(second, again) == Some(
            ErrorCode::AlreadyLocked,
        ),
        deposit_collateral::rejection(first, amount) is None && second.obligation
            == deposit_collateral::effect(first, amount).obligation
            ==> deposit_collateral::rejection(second, again) == Some(ErrorCode::AlreadyLocked),
{
}

/// Only a settlement unlocks an obligation.
pub proof fn only_settlement_unlocks(world: World, op: Operation)
    requires
        is_locked(world),
        step(world, op) is Some,
        step(world, op)->0.obligation is Some,
        !is_locked(step(world, op)->0),
    ensures
        op is Settle,
{
}

/// A withdrawal is accepted exactly when the obligation is settled and
/// unlocked and the request comes from its recorded host.
pub proof fn withdrawal_needs_settled_and_unlocked(ctx: WithdrawCollateral)
    ensures
        withdraw_collateral::rejection(ctx) is None <==> ctx.obligation.is_settled
            && !ctx.obligation.is_locked && ctx.obligation.host_wallet@ == ctx.host@,
        !ctx.obligation.is_settled ==> withdraw_collateral::rejection(ctx) == Some(
            ErrorCode::NotYetSettled,
        ),
        ctx.obligation.is_settled && ctx.obligation.is_locked ==> withdraw_collateral::rejection(
            ctx,
        ) == Some(ErrorCode::ObligationStillLocked),
{
}

/// An open obligation can be liquidated exactly when more than 604800
/// seconds have passed since its end date; until then the request is
/// rejected because the grace period is not over.
pub proof fn liquidation_waits_for_grace(ctx: LiquidateDefault)
    requires
        !ctx.obligation.is_settled,
    ensures
        liquidate_default::rejection(ctx) is None <==> ctx.unix_timestamp
            > ctx.obligation.end_date + 604800,
        liquidate_default::rejection(ctx) == Some(ErrorCode::GracePeriodNotOver)
            <==> ctx.unix_timestamp <= ctx.obligation.end_date + 604800,
{
}

/// An accepted pool withdrawal pays the position's principal and realized
/// profit, and the pool tracks exactly that much less. A payout beyond what
/// the pool tracks is rejected.
pub proof fn pool_withdrawal_pays_exactly(ctx: WithdrawLiquidity)
    ensures
        ctx.position.principal + ctx.position.realized_profit
            > ctx.pool_vault.total_liquidity_tracked ==> withdraw_liquidity::rejection(ctx)
            == Some(ErrorCode::MathOverflow),
        withdraw_liquidity::rejection(ctx) is None ==> {
            &&& withdraw_liquidity::orders(ctx)[0] == Order::Transfer {
                asset: Asset::Cash,
                from: Custodian::Pool,
                to: Custodian::Investor,
                amount: (ctx.position.principal + ctx.position.realized_profit) as u64,
                authority: Authority::Pool,
            }
            &&& withdraw_liquidity::effect(ctx).pool_vault.total_liquidity_tracked
                == ctx.pool_vault.total_liquidity_tracked - (ctx.position.principal
                + ctx.position.realized_profit)
            &&& withdraw_liquidity::payout(withdraw_liquidity::effect(ctx).position) == 0
        },
{
}

/// An obligation that is settled while locked is at its end: it can be
/// neither locked, settled, liquidated nor withdrawn. This is where a
/// seized obligation stays.
pub proof fn held_is_final(world: World, op: Operation)
    requires
        world.obligation matches Some(o) && o.phase() == Phase::Held,
        op is Lock || op is Settle || op is Liquidate || op is Withdraw,
    ensures
        step(world, op) is None,
{
}

/// A withdrawn obligation is gone: every request about it comes to nothing.
pub proof fn withdrawn_is_final(world: World, op: Operation)
    requires
        world.obligation is None,
        op is Lock || op is Settle || op is Liquidate || op is Withdraw,
    ensures
        step(world, op) is None,
{
}

/// In a coherent world the pool can always pay what it agreed to: a lock
/// that is accepted is carried out whenever the host has the collateral
/// unit, and an accepted pool withdrawal is always carried out.
pub proof fn pool_covers_its_orders(world: World, op: Operation)
    requires
        coherent(world),
    ensures
        ({
            &&& op matches Operation::Lock { host, funding_amount }
            &&& world.obligation matches Some(o)
            &&& deposit_collateral::rejection(
                DepositCollateral { host: host, obligation: o, pool_vault: world.pool },
                funding_amount,
            ) is None
            &&& world.ledger.held(Asset::Collateral, Custodian::Host) >= 1
        }) ==> step(world, op) is Some,
        ({
            &&& op matches Operation::WithdrawLiquidity { investor, position }
            &&& withdraw_liquidity::rejection(
                WithdrawLiquidity {
                    investor: investor,
                    position: position,
                    pool_vault: world.pool,
                },
            ) is None
        }) ==> step(world, op) is Some,
{
    match op {
        Operation::Lock { host, funding_amount } => {
            if world.obligation is Some {
                let ctx = DepositCollateral {
                    host: host,
                    obligation: world.obligation->0,
                    pool_vault: world.pool,
                };
                let orders = deposit_collateral::orders(ctx, funding_amount);
                after_all_of_two(world.ledger, orders[0], orders[1]);
            }
        },
        Operation::WithdrawLiquidity { investor, position } => {
            let ctx = WithdrawLiquidity {
                investor: investor,
                position: position,
                pool_vault: world.pool,
            };
            let orders = withdraw_liquidity::orders(ctx);
            after_all_of_two(world.ledger, orders[0], orders[1]);
        },
        _ => {},
    }
}

/// Whether every transfer among `orders` is made on the word of the one who
/// may release from its source, and every issue on the integrator's.
pub open spec fn well_authorized(orders: Seq<Order>) -> bool {
    forall|i: int|
        0 <= i < orders.len() ==> match #[trigger] orders[i] {
            Order::Issue { to, amount, authority } => authority == Authority::Integrator,
            Order::Transfer { asset, from, to, amount, authority } => may_release(authority, from),
            Order::Close { record, refund_to } => true,
        }
}

/// No operation asks for more authority than it has: a wallet's assets move
/// on its own signature, and a record's signing capability moves assets out
/// of that record's custody and out of no other.
pub proof fn orders_are_well_authorized(
    lock: DepositCollateral,
    funding_amount: u64,
    settle: SettleBooking,
    liquidate: LiquidateDefault,
    withdraw: WithdrawCollateral,
    deposit: DepositLiquidity,
    amount: u64,
    payout: WithdrawLiquidity,
)
    ensures
        well_authorized(mint_booking::orders()),
        well_authorized(deposit_collateral::orders(lock, funding_amount)),
        well_authorized(settle_booking::orders(settle)),
        well_authorized(liquidate_default::orders(liquidate)),
        well_authorized(withdraw_collateral::orders(withdraw)),
        well_authorized(deposit_liquidity::orders(deposit, amount)),
        well_authorized(withdraw_liquidity::orders(payout)),
{
}

} // verus!
