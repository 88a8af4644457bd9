//! Staking subaccounts: a neuron's name becomes a nonce, and the nonce with
//! the controller's principal names the subaccount that receives the stake.
use vstd::prelude::*;
use vstd::string::StringSliceAdditionalSpecFns;
use crate::account::{AccountIdentifier, Subaccount, account_hash};
use crate::digest::{sha256, sha256_of};
use crate::amount::{AmountError, Tokens, amount_text_e8s, fee_or_default, is_amount_text, bytes_of};
use crate::transfer::{SendArgs, fee_e8s};

verus! {

/// Create a neuron staked with the given amount.
#[derive(Clone, Debug)]
pub struct TransferOpts {
    /// Tokens to stake on the new neuron.
    pub amount: String,
    /// The neuron's name, up to eight ASCII characters.
    pub name: String,
    /// The fee, by default 10000 e8s.
    pub fee: Option<String>,
}

/// Why a staking subaccount could not be derived.
#[derive(Clone, Copy, Debug, PartialEq, Eq, Structural)]
pub enum NeuronError {
    /// The name is longer than eight bytes.
    NameTooLong,
}

/// The value of a byte string read as a big-endian number.
pub open spec fn be_value(s: Seq<u8>) -> nat
    decreases s.len(),
{
    if s.len() == 0 {
        0
    } else {
        be_value(s.drop_last()) * 256 + s.last() as nat
    }
}

/// The eight big-endian bytes of a 64-bit number.
pub open spec fn be64(n: u64) -> Seq<u8> {
    seq![
        (n >> 56u64) as u8,
        (n >> 48u64) as u8,
        (n >> 40u64) as u8,
        (n >> 32u64) as u8,
        (n >> 24u64) as u8,
        (n >> 16u64) as u8,
        (n >> 8u64) as u8,
        n as u8,
    ]
}

/// Domain tag of staking subaccounts: its length, then `neuron-stake`.
pub open spec fn stake_domain() -> Seq<u8> {
    seq![12u8, 110u8, 101u8, 117u8, 114u8, 111u8, 110u8, 45u8, 115u8, 116u8, 97u8, 107u8, 101u8]
}

/// The subaccount of `controller` that stakes the neuron with `nonce`.
pub open spec fn neuron_subaccount(controller: Seq<u8>, nonce: u64) -> Seq<u8> {
    sha256_of(stake_domain() + controller + be64(nonce))
}

/// The nonce of a neuron name: its bytes, left-padded with zeros to eight,
/// read as a big-endian number.
pub open spec fn name_nonce(name: Seq<u8>) -> nat {
    be_value(name)
}

pub open spec fn pow256(n: nat) -> nat
    decreases n,
{
    if n == 0 {
        1
    } else {
        256 * pow256((n - 1) as nat)
    }
}

proof fn lemma_be_value_bound(s: Seq<u8>)
    ensures
        be_value(s) < pow256(s.len()),
    decreases s.len(),
{
    if s.len() > 0 {
        lemma_be_value_bound(s.drop_last());
        let a = be_value(s.drop_last());
        let p = pow256((s.len() - 1) as nat);
        let x = s.last() as nat;
        assert(a * 256 + x < 256 * p) by (nonlinear_arith)
            requires a < p, x < 256;
    }
}

proof fn lemma_pow256_8()
    ensures
        pow256(8) == 0x1_0000_0000_0000_0000,
{
    reveal_with_fuel(pow256, 9);
}

proof fn lemma_pow256_mono(a: nat, b: nat)
    requires
        a <= b,
    ensures
        pow256(a) <= pow256(b),
    decreases b,
{
    if b > a {
        lemma_pow256_mono(a, (b - 1) as nat);
    }
}

/// Accepts a neuron name of at most eight bytes.
pub fn neuron_name_validator(name: &str) -> (r: Result<(), String>)
    ensures
        r is Ok <==> name.spec_bytes().len() <= 8,
        r is Err ==> r->Err_0@ == "The neuron name must be 8 character or less"@,
{
    if name.as_bytes().len() > 8 {
        return Err("The neuron name must be 8 character or less".to_owned());
    }
    Ok(())
}

/// The nonce of a neuron name of at most eight bytes.
pub fn convert_name_to_memo(name: &str) -> (r: u64)
    requires
        name.spec_bytes().len() <= 8,
    ensures
        r as nat == name_nonce(name.spec_bytes()),
{
    let b = name.as_bytes();
    let mut acc: u64 = 0;
    let mut i: usize = 0;
    while i < b.len()
        invariant
            i <= b@.len() <= 8,
            acc as nat == be_value(b@.subrange(0, i as int)),
        decreases b@.len() - i,
    {
        proof {
            assert(b@.subrange(0, i + 1).drop_last() =~= b@.subrange(0, i as int));
            lemma_be_value_bound(b@.subrange(0, i + 1));
            lemma_pow256_mono((i + 1) as nat, 8);
            lemma_pow256_8();
        }
        acc = acc * 256 + b[i] as u64;
        i = i + 1;
    }
    assert(b@.subrange(0, b@.len() as int) =~= b@);
    acc
}

fn be64_bytes(n: u64) -> (r: Vec<u8>)
    ensures
        r@ == be64(n),
{
    let r = vec![
        (n >> 56u64) as u8,
        (n >> 48u64) as u8,
        (n >> 40u64) as u8,
        (n >> 32u64) as u8,
        (n >> 24u64) as u8,
        (n >> 16u64) as u8,
        (n >> 8u64) as u8,
        n as u8,
    ];
    assert(r@ =~= be64(n));
    r
}

/// The subaccount of `controller` that stakes the neuron with `nonce`.
pub fn get_neuron_subaccount(controller: &[u8], nonce: u64) -> (r: Subaccount)
    ensures
        r.wf(),
        r.bytes@ == neuron_subaccount(controller@, nonce),
{
    let mut data: Vec<u8> = vec![12u8, 110u8, 101u8, 117u8, 114u8, 111u8, 110u8, 45u8, 115u8, 116u8, 97u8, 107u8, 101u8];
    data.extend_from_slice(controller);
    let nb = be64_bytes(nonce);
    data.extend_from_slice(nb.as_slice());
    assert(data@ =~= stake_domain() + controller@ + be64(nonce));
    Subaccount { bytes: sha256(data.as_slice()) }
}

/// The staking subaccount of `controller` for the neuron called `name`.
pub fn derive_staking_subaccount(controller: &[u8], name: &str) -> (r: Result<Subaccount, NeuronError>)
    ensures
        name.spec_bytes().len() > 8 ==> r == Err::<Subaccount, NeuronError>(NeuronError::NameTooLong),
        name.spec_bytes().len() <= 8 ==> r is Ok && r->Ok_0.wf() && r->Ok_0.bytes@
            == neuron_subaccount(controller@, name_nonce(name.spec_bytes()) as u64),
{
    if neuron_name_validator(name).is_err() {
        return Err(NeuronError::NameTooLong);
    }
    let nonce = convert_name_to_memo(name);
    Ok(get_neuron_subaccount(controller, nonce))
}

/// Where a stake for the neuron called `name` goes: the ledger account of the
/// staking subaccount, and the memo (the name's nonce) that the transfer carries.
pub fn neuron_stake_destination(controller: &[u8], name: &str) -> (r: Result<(AccountIdentifier, u64), NeuronError>)
    ensures
        name.spec_bytes().len() > 8 ==> r is Err && r->Err_0 == NeuronError::NameTooLong,
        name.spec_bytes().len() <= 8 ==> r is Ok && r->Ok_0.0.wf() && r->Ok_0.1 as nat == name_nonce(name.spec_bytes())
            && r->Ok_0.0.hash@ == account_hash(controller@, Some(neuron_subaccount(controller@, r->Ok_0.1))),
{
    if neuron_name_validator(name).is_err() {
        return Err(NeuronError::NameTooLong);
    }
    let nonce = convert_name_to_memo(name);
    let sub = get_neuron_subaccount(controller, nonce);
    Ok((AccountIdentifier::new(controller, Some(&sub)), nonce))
}

/// A staking subaccount depends on the controller and the name alone: two
/// derivations from the same controller and name give the same subaccount,
/// and a name longer than eight bytes is refused.
pub proof fn lemma_staking_subaccount_deterministic(controller: Seq<u8>, name: Seq<u8>, r1: Result<Subaccount, NeuronError>, r2: Result<Subaccount, NeuronError>)
    requires
        name.len() <= 8 ==> r1 is Ok && r1->Ok_0.bytes@ == neuron_subaccount(controller, name_nonce(name) as u64),
        name.len() <= 8 ==> r2 is Ok && r2->Ok_0.bytes@ == neuron_subaccount(controller, name_nonce(name) as u64),
    ensures
        name.len() <= 8 ==> r1->Ok_0.bytes@ == r2->Ok_0.bytes@,
{
}

/// Why a stake could not be prepared.
#[derive(Clone, Copy, Debug, PartialEq, Eq, Structural)]
pub enum StakeError {
    Name(NeuronError),
    Amount(AmountError),
}

/// Builds the transfer that stakes a new neuron of `controller`: the amount
/// and fee of `opts`, to the neuron's staking account, with the name's nonce
/// as memo.
pub fn prepare_stake(controller: &[u8], opts: &TransferOpts) -> (r: Result<SendArgs, StakeError>)
    ensures
        ({
            let name = bytes_of(opts.name);
            let amount = bytes_of(opts.amount);
            if name.len() > 8 {
                r == Err::<SendArgs, StakeError>(StakeError::Name(NeuronError::NameTooLong))
            } else if !is_amount_text(amount) {
                r == Err::<SendArgs, StakeError>(StakeError::Amount(AmountError::InvalidAmount))
            } else if fee_e8s(opts.fee) is Err {
                r == Err::<SendArgs, StakeError>(StakeError::Amount(fee_e8s(opts.fee)->Err_0))
            } else {
                &&& r is Ok
                &&& r->Ok_0.memo as nat == name_nonce(name)
                &&& r->Ok_0.amount.e8s == amount_text_e8s(amount).unwrap()
                &&& r->Ok_0.fee.e8s == fee_e8s(opts.fee)->Ok_0
                &&& r->Ok_0.to.wf()
                &&& r->Ok_0.to.hash@ == account_hash(
                    controller@,
                    Some(neuron_subaccount(controller@, r->Ok_0.memo)),
                )
            }
        }),
{
    let (to, memo) = match neuron_stake_destination(controller, opts.name.as_str()) {
        Ok(d) => d,
        Err(e) => return Err(StakeError::Name(e)),
    };
    let amount = match Tokens::parse(opts.amount.as_str()) {
        Some(a) => a,
        None => return Err(StakeError::Amount(AmountError::InvalidAmount)),
    };
    let fee = match fee_or_default(&opts.fee) {
        Ok(f) => f,
        Err(e) => return Err(StakeError::Amount(e)),
    };
    Ok(SendArgs { memo, amount, fee, to })
}

} // verus!
