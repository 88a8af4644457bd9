//! Ledger transfers: the transfer's argument from the user's options, and the
//! bundle of the signed transfer with its signed status poll.
use vstd::prelude::*;
use vstd::string::StringExecFns;
use vstd::string::StringSliceAdditionalSpecFns;
use crate::envelope::{SignError, SignedMessage};
use crate::account::{AccountIdError, AccountIdentifier, parse_account};
use crate::amount::{
    AmountError, Tokens, DEFAULT_FEE_E8S, amount_from_args, amount_text_e8s, bytes_of,
    fee_or_default, get_icpts_from_args, is_amount_text, is_u64_text, memo_or_default,
    u64_text_value,
};

verus! {

/// The ledger method that a transfer calls.
pub const SEND_METHOD: &'static str = "send_dfx";

/// Transfer tokens from the user to the destination account.
#[derive(Clone, Debug, Default)]
pub struct TransferOpts {
    /// Text of the destination account identifier.
    pub to: String,
    /// A decimal amount, up to eight fractional digits.
    pub amount: Option<String>,
    /// Whole tokens, to go with `e8s`.
    pub icp: Option<String>,
    /// e8s, to go with `icp`.
    pub e8s: Option<String>,
    /// A numeric memo.
    pub memo: Option<String>,
    /// The fee, by default 10000 e8s.
    pub fee: Option<String>,
}

/// The argument of a ledger transfer: no source subaccount and no creation
/// time are ever set.
#[derive(Clone, Debug)]
pub struct SendArgs {
    pub memo: u64,
    pub amount: Tokens,
    pub fee: Tokens,
    pub to: AccountIdentifier,
}

/// Why a transfer could not be prepared.
#[derive(Clone, Copy, Debug, PartialEq, Eq, Structural)]
pub enum TransferError {
    Amount(AmountError),
    Account(AccountIdError),
}

pub open spec fn fee_e8s(fee: Option<String>) -> Result<nat, AmountError> {
    match fee {
        Some(s) => if is_amount_text(bytes_of(s)) {
            Ok(amount_text_e8s(bytes_of(s)).unwrap())
        } else {
            Err(AmountError::InvalidAmount)
        },
        None => Ok(DEFAULT_FEE_E8S as nat),
    }
}

pub open spec fn memo_value(memo: Option<String>) -> Result<nat, AmountError> {
    match memo {
        Some(s) => if is_u64_text(bytes_of(s)) {
            Ok(u64_text_value(bytes_of(s)))
        } else {
            Err(AmountError::InvalidWholeNumber)
        },
        None => Ok(0),
    }
}

/// Builds the argument of a transfer from its options: the amount, then the
/// fee (10000 e8s by default), the memo (0 by default) and the destination.
pub fn prepare_transfer(opts: &TransferOpts) -> (r: Result<SendArgs, TransferError>)
    ensures
        ({
            let amount = amount_from_args(opts.amount, opts.icp, opts.e8s);
            let fee = fee_e8s(opts.fee);
            let memo = memo_value(opts.memo);
            let to = parse_account(bytes_of(opts.to));
            if amount is Err {
                r == Err::<SendArgs, TransferError>(TransferError::Amount(amount->Err_0))
            } else if fee is Err {
                r == Err::<SendArgs, TransferError>(TransferError::Amount(fee->Err_0))
            } else if memo is Err {
                r == Err::<SendArgs, TransferError>(TransferError::Amount(memo->Err_0))
            } else if to is Err {
                r == Err::<SendArgs, TransferError>(TransferError::Account(to->Err_0))
            } else {
                &&& r is Ok
                &&& r->Ok_0.amount.e8s == amount->Ok_0
                &&& r->Ok_0.fee.e8s == fee->Ok_0
                &&& r->Ok_0.memo == memo->Ok_0
                &&& r->Ok_0.to.wf()
                &&& r->Ok_0.to.hash@ == to->Ok_0
            }
        }),
{
    let amount = match get_icpts_from_args(opts.amount.clone(), opts.icp.clone(), opts.e8s.clone()) {
        Ok(a) => a,
        Err(e) => return Err(TransferError::Amount(e)),
    };
    let fee = match fee_or_default(&opts.fee) {
        Ok(f) => f,
        Err(e) => return Err(TransferError::Amount(e)),
    };
    let memo = match memo_or_default(&opts.memo) {
        Ok(m) => m,
        Err(e) => return Err(TransferError::Amount(e)),
    };
    let to = match AccountIdentifier::from_hex(opts.to.as_str()) {
        Ok(t) => t,
        Err(e) => return Err(TransferError::Account(e)),
    };
    Ok(SendArgs { memo, amount, fee, to })
}

/// The document that carries a signed transfer and its signed status poll.
pub open spec fn bundle_text(ingress: Seq<char>, request_status: Seq<char>) -> Seq<char> {
    "{ \"ingress\": "@ + ingress + ", \"request_status\": "@ + request_status + "}"@
}

/// Joins a signed transfer and its signed status poll into one document.
pub fn transfer_bundle(ingress: &str, request_status: &str) -> (r: String)
    ensures
        r@ == bundle_text(ingress@, request_status@),
{
    let mut out = "{ \"ingress\": ".to_owned();
    out.append(ingress);
    out.append(", \"request_status\": ");
    out.append(request_status);
    out.append("}");
    out
}

/// A transfer bundle holds both documents whole, each right after its key:
/// `ingress` first, then `request_status`.
pub proof fn lemma_bundle_holds_both(ingress: Seq<char>, request_status: Seq<char>)
    ensures
        ({
            let t = bundle_text(ingress, request_status);
            let p = "{ \"ingress\": "@;
            let m = ", \"request_status\": "@;
            let a = p.len() as int;
            let b = a + ingress.len();
            let c = b + m.len();
            let d = c + request_status.len();
            &&& t.subrange(0, a) == p
            &&& t.subrange(a, b) == ingress
            &&& t.subrange(b, c) == m
            &&& t.subrange(c, d) == request_status
            &&& t.len() == d + 1
        }),
{
    let t = bundle_text(ingress, request_status);
    let p = "{ \"ingress\": "@;
    let m = ", \"request_status\": "@;
    let a = p.len() as int;
    let b = a + ingress.len();
    let c = b + m.len();
    let d = c + request_status.len();
    reveal_strlit("}");
    assert(t.subrange(0, a) =~= p);
    assert(t.subrange(a, b) =~= ingress);
    assert(t.subrange(b, c) =~= m);
    assert(t.subrange(c, d) =~= request_status);
}

/// The request id that the status poll of a signed transfer asks about; a
/// message without one (a query) cannot be polled.
pub fn status_poll_request_id(ingress: &SignedMessage) -> (r: Result<Vec<u8>, SignError>)
    ensures
        match ingress.request_id {
            Some(id) => r is Ok && r->Ok_0@ == id@,
            None => r == Err::<Vec<u8>, SignError>(SignError::MissingRequestId),
        },
{
    match &ingress.request_id {
        Some(id) => Ok(id.clone()),
        None => Err(SignError::MissingRequestId),
    }
}

} // verus!
