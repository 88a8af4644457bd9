//! Signed call envelopes: whether a call goes as a query or an update, how
//! long it stays valid, and what a captured envelope holds.
use vstd::prelude::*;
use crate::target::{TargetError, candid_record_of, get_effective_canister_id, mgmt_target};

verus! {

/// Number of nanoseconds in a second.
pub const NANOS_PER_SEC: u64 = 1_000_000_000;

/// How a call is made.
#[derive(Clone, Copy, Debug, PartialEq, Eq, Structural)]
pub enum CallKind {
    Query,
    Update,
}

/// Why a call could not be signed.
#[derive(Clone, Copy, Debug, PartialEq, Eq, Structural)]
pub enum SignError {
    /// A query was asked for on a method that is known to be an update.
    MethodKindMismatch,
    /// The validity period could not be read, or is empty.
    InvalidDuration,
    /// The expiration time does not fit.
    DurationOverflow,
    /// An update call was captured without its request id.
    MissingRequestId,
    /// The effective canister could not be settled.
    Target(TargetError),
}

/// The kind of a call, from what the interface says of the method (`Some(true)`
/// for a query method) and the caller's `--query` and `--update` flags.
pub open spec fn call_kind(known_query: Option<bool>, query: bool, update: bool) -> Result<CallKind, SignError> {
    match known_query {
        Some(true) => if update {
            Ok(CallKind::Update)
        } else {
            Ok(CallKind::Query)
        },
        Some(false) => if query {
            Err(SignError::MethodKindMismatch)
        } else {
            Ok(CallKind::Update)
        },
        None => if query {
            Ok(CallKind::Query)
        } else {
            Ok(CallKind::Update)
        },
    }
}

/// Decides whether a call is signed as a query or as an update. A known query
/// method may be sent as an update; a known update method is never sent as
/// a query; without an interface the caller's flag decides, update by default.
pub fn decide_call_kind(known_query: Option<bool>, query: bool, update: bool) -> (r: Result<CallKind, SignError>)
    ensures
        r == call_kind(known_query, query, update),
{
    match known_query {
        Some(true) => if update {
            Ok(CallKind::Update)
        } else {
            Ok(CallKind::Query)
        },
        Some(false) => if query {
            Err(SignError::MethodKindMismatch)
        } else {
            Ok(CallKind::Update)
        },
        None => if query {
            Ok(CallKind::Query)
        } else {
            Ok(CallKind::Update)
        },
    }
}

/// Without an interface and without `--query` a call is an update; with
/// `--query` on a method known to be an update it is refused.
pub proof fn lemma_call_kind_rules(update: bool)
    ensures
        call_kind(None, false, update) == Ok::<CallKind, SignError>(CallKind::Update),
        call_kind(Some(false), true, update) == Err::<CallKind, SignError>(SignError::MethodKindMismatch),
        call_kind(Some(true), false, true) == Ok::<CallKind, SignError>(CallKind::Update),
{
}

/// The expiration time, in nanoseconds, of a call created at `creation` and
/// valid for `secs` seconds.
pub open spec fn expiration_of(creation: u64, secs: u64) -> Result<u64, SignError> {
    if secs == 0 {
        Err(SignError::InvalidDuration)
    } else if creation + secs * 1_000_000_000 > u64::MAX {
        Err(SignError::DurationOverflow)
    } else {
        Ok((creation + secs * 1_000_000_000) as u64)
    }
}

/// A call valid for `secs` seconds expires exactly `secs` seconds after its
/// creation, wherever that time fits.
pub proof fn lemma_expiration_span(creation: u64, secs: u64)
    requires
        expiration_of(creation, secs) is Ok,
    ensures
        expiration_of(creation, secs)->Ok_0 - creation == secs * 1_000_000_000,
        expiration_of(creation, secs)->Ok_0 > creation,
{
}

/// The expiration time of a call created at `creation_nanos` and valid for
/// `timeout_secs` seconds.
pub fn expiration_after(creation_nanos: u64, timeout_secs: u64) -> (r: Result<u64, SignError>)
    ensures
        r == expiration_of(creation_nanos, timeout_secs),
{
    if timeout_secs == 0 {
        return Err(SignError::InvalidDuration);
    }
    let span = match timeout_secs.checked_mul(NANOS_PER_SEC) {
        Some(s) => s,
        None => return Err(SignError::DurationOverflow),
    };
    match creation_nanos.checked_add(span) {
        Some(e) => Ok(e),
        None => Err(SignError::DurationOverflow),
    }
}

/// The whole seconds of a human-readable duration such as `5m` or `1h 30m`.
pub uninterp spec fn duration_secs_of(text: Seq<char>) -> Option<u64>;

/// Relies on `humanize_rs::duration::parse`: reads a human-readable duration;
/// the result is taken in whole seconds.
#[verifier::external_body]
fn parse_duration_secs(text: &str) -> (r: Option<u64>)
    ensures
        r == duration_secs_of(text@),
{
    humanize_rs::duration::parse(text).ok().map(|d| d.as_secs())
}

/// Reads the validity period of a call, in whole seconds.
pub fn parse_expire_after(text: &str) -> (r: Result<u64, SignError>)
    ensures
        match duration_secs_of(text@) {
            Some(s) => r == Ok::<u64, SignError>(s),
            None => r == Err::<u64, SignError>(SignError::InvalidDuration),
        },
{
    match parse_duration_secs(text) {
        Some(s) => Ok(s),
        None => Err(SignError::InvalidDuration),
    }
}

/// Everything that is settled about a call before it is signed.
#[derive(Clone, Debug)]
pub struct CallPlan {
    pub network: String,
    pub sender: Vec<u8>,
    pub canister_id: Vec<u8>,
    pub effective_canister_id: Vec<u8>,
    pub method_name: String,
    pub arg: Vec<u8>,
    pub kind: CallKind,
    pub creation: u64,
    pub expiration: u64,
}

impl CallPlan {
    pub open spec fn wf(&self) -> bool {
        self.creation < self.expiration
    }
}

/// What is asked of a signing: the call and the caller's choices.
#[derive(Clone, Debug)]
pub struct SignRequest {
    pub network: String,
    pub sender: Vec<u8>,
    pub canister_id: Vec<u8>,
    pub method_name: String,
    pub arg: Vec<u8>,
    pub query: bool,
    pub update: bool,
    pub expire_after: String,
}

/// Settles a call: its kind, its validity window starting at `now_nanos`,
/// and the canister it affects. `known_query` is what the interface of the
/// callee says of the method, where it is at hand.
pub fn plan_call(req: SignRequest, known_query: Option<bool>, now_nanos: u64) -> (r: Result<CallPlan, SignError>)
    ensures
        ({
            let kind = call_kind(known_query, req.query, req.update);
            let secs = duration_secs_of(req.expire_after@);
            let is_mgmt = req.canister_id@.len() == 0;
            if kind is Err {
                r == Err::<CallPlan, SignError>(kind->Err_0)
            } else if secs is None {
                r == Err::<CallPlan, SignError>(SignError::InvalidDuration)
            } else if expiration_of(now_nanos, secs.unwrap()) is Err {
                r == Err::<CallPlan, SignError>(expiration_of(now_nanos, secs.unwrap())->Err_0)
            } else if is_mgmt && mgmt_target(req.method_name@, candid_record_of(req.arg@)) is Err {
                r == Err::<CallPlan, SignError>(
                    SignError::Target(mgmt_target(req.method_name@, candid_record_of(req.arg@))->Err_0),
                )
            } else {
                &&& r is Ok
                &&& r->Ok_0.wf()
                &&& r->Ok_0.kind == kind->Ok_0
                &&& r->Ok_0.creation == now_nanos
                &&& r->Ok_0.expiration == expiration_of(now_nanos, secs.unwrap())->Ok_0
                &&& r->Ok_0.effective_canister_id@ == (if is_mgmt {
                    mgmt_target(req.method_name@, candid_record_of(req.arg@))->Ok_0
                } else {
                    req.canister_id@
                })
                &&& r->Ok_0.network@ == req.network@
                &&& r->Ok_0.sender@ == req.sender@
                &&& r->Ok_0.canister_id@ == req.canister_id@
                &&& r->Ok_0.method_name@ == req.method_name@
                &&& r->Ok_0.arg@ == req.arg@
            }
        }),
{
    let kind = decide_call_kind(known_query, req.query, req.update)?;
    let secs = parse_expire_after(req.expire_after.as_str())?;
    let expiration = expiration_after(now_nanos, secs)?;
    let is_mgmt = req.canister_id.len() == 0;
    let effective = match get_effective_canister_id(
        is_mgmt,
        req.method_name.as_str(),
        req.arg.as_slice(),
        req.canister_id.clone(),
    ) {
        Ok(c) => c,
        Err(e) => return Err(SignError::Target(e)),
    };
    Ok(CallPlan {
        network: req.network,
        sender: req.sender,
        canister_id: req.canister_id,
        effective_canister_id: effective,
        method_name: req.method_name,
        arg: req.arg,
        kind,
        creation: now_nanos,
        expiration,
    })
}

/// A signed call as it is written out for later relay.
#[derive(Clone, Debug)]
pub struct SignedMessage {
    pub creation: u64,
    pub expiration: u64,
    pub network: String,
    pub sender: Vec<u8>,
    pub canister_id: Vec<u8>,
    pub method_name: String,
    pub arg: Vec<u8>,
    pub call_type: CallKind,
    pub request_id: Option<Vec<u8>>,
    pub content: Vec<u8>,
}

impl SignedMessage {
    /// Expiration follows creation, and a request id is there exactly for
    /// updates.
    pub open spec fn wf(&self) -> bool {
        &&& self.creation < self.expiration
        &&& (self.request_id is Some <==> self.call_type == CallKind::Update)
    }
}

/// Seals a planned call with the signed bytes captured from the signer and,
/// for an update, its request id.
pub fn seal_message(plan: CallPlan, content: Vec<u8>, request_id: Option<Vec<u8>>) -> (r: Result<SignedMessage, SignError>)
    requires
        plan.wf(),
    ensures
        plan.kind == CallKind::Update && request_id is None ==> r == Err::<SignedMessage, SignError>(SignError::MissingRequestId),
        !(plan.kind == CallKind::Update && request_id is None) ==> {
            &&& r is Ok
            &&& r->Ok_0.wf()
            &&& r->Ok_0.creation == plan.creation
            &&& r->Ok_0.expiration == plan.expiration
            &&& r->Ok_0.network@ == plan.network@
            &&& r->Ok_0.sender@ == plan.sender@
            &&& r->Ok_0.canister_id@ == plan.canister_id@
            &&& r->Ok_0.method_name@ == plan.method_name@
            &&& r->Ok_0.arg@ == plan.arg@
            &&& r->Ok_0.call_type == plan.kind
            &&& r->Ok_0.content@ == content@
            &&& (plan.kind == CallKind::Update ==> r->Ok_0.request_id == request_id)
        },
{
    let rid = match plan.kind {
        CallKind::Update => match request_id {
            Some(id) => Some(id),
            None => return Err(SignError::MissingRequestId),
        },
        CallKind::Query => None,
    };
    Ok(SignedMessage {
        creation: plan.creation,
        expiration: plan.expiration,
        network: plan.network,
        sender: plan.sender,
        canister_id: plan.canister_id,
        method_name: plan.method_name,
        arg: plan.arg,
        call_type: plan.kind,
        request_id: rid,
        content,
    })
}

} // verus!
