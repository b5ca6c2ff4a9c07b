//! A time-locked escrow: vaults that hold an asset until an unlock time,
//! a flat creation fee collected by an operator, and the authorization
//! rules that bind every change to the identity that may make it.

pub mod address;
pub mod config;
pub mod error;
pub mod identity;
pub mod vault;
