//! The operations of the protocol, one module each.
//!
//! Every operation reads its request from a plain structure, decides, and
//! either rejects the request, leaving that structure untouched, or writes
//! the new records into it and returns the custody orders to carry out.

pub mod settle_booking;
pub mod deposit_collateral;
pub mod liquidate_default;
pub mod withdraw_collateral;
pub mod deposit_liquidity;
pub mod withdraw_liquidity;
pub mod init_vault;
pub mod initialize;
pub mod mint_booking;
