//! The commands of the signer and their options.
use vstd::prelude::*;
use crate::transfer::TransferOpts;

verus! {

/// Sign a canister call and write the message file.
#[derive(Clone, Debug)]
pub struct SignOpts {
    /// The canister to call.
    pub canister_name: String,
    /// The method to call on the canister.
    pub method_name: String,
    /// Sign a query call.
    pub query: bool,
    /// Sign an update call; the default where the method is not a query.
    pub update: bool,
    /// The argument to pass to the method.
    pub argument: Option<String>,
    /// A configuration for a random argument.
    pub random: Option<String>,
    /// The form of the argument: `idl` or `raw`.
    pub arg_type: Option<String>,
    /// How long the message stays valid, by default `5m`.
    pub expire_after: String,
    /// The output file, by default `message.json`.
    pub file: String,
}

/// A command of the signer.
#[derive(Clone, Debug)]
pub enum Command {
    GetPrincipal,
    Sign(SignOpts),
    AccountId,
    Transfer(TransferOpts),
    Stake(crate::neuron::TransferOpts),
}

} // verus!
