//! Offline signing of canister calls: amounts, addresses, staking subaccounts,
//! envelope timing and the choice of the effective target canister.
use vstd::prelude::*;

pub mod account;
pub mod amount;
pub mod envelope;
pub mod identity;
mod digest;
pub mod neuron;
pub mod options;
pub mod target;
pub mod transfer;

verus! {

} // verus!
