//! The canister that a call really affects. A call to the management
//! canister names the canister it acts on inside its argument.
use vstd::prelude::*;

verus! {

/// Methods of the management canister that an offline signer knows of.
#[derive(Clone, Copy, Debug, PartialEq, Eq, Structural)]
pub enum MgmtMethod {
    CreateCanister,
    RawRand,
    InstallCode,
    UpdateSettings,
    StartCanister,
    StopCanister,
    CanisterStatus,
    DeleteCanister,
    DepositCycles,
    UninstallCode,
    ProvisionalTopUpCanister,
    ProvisionalCreateCanisterWithCycles,
}

/// Why the effective canister of a call could not be settled.
#[derive(Clone, Copy, Debug, PartialEq, Eq, Structural)]
pub enum TargetError {
    /// The management canister has no method of this name that can be signed.
    UnsupportedManagementMethod,
    /// The method can only be called from another canister.
    RequiresInterCanisterContext,
    /// The argument is not a record with a principal `canister_id` field.
    ArgumentDecodeError,
}

/// The Candid field id of `canister_id` (the Candid hash of the name).
pub const CANISTER_ID_LABEL: u32 = 1313628723;

/// The management canister's id: the empty principal.
pub open spec fn management_canister() -> Seq<u8> {
    Seq::empty()
}

/// The fields of the first value of a Candid argument, where it is a record:
/// each field's id, with the bytes of its value where that is a principal.
pub uninterp spec fn candid_record_of(arg: Seq<u8>) -> Option<Seq<(u32, Option<Seq<u8>>)>>;

/// Relies on `candid::IDLArgs::from_bytes`: decodes a Candid argument without a
/// type, and hands out the fields of its first value where that is a record.
#[verifier::external_body]
fn decode_record(arg: &[u8]) -> (r: Option<Vec<(u32, Option<Vec<u8>>)>>)
    ensures
        r.deep_view() == candid_record_of(arg@),
{
    match candid::IDLArgs::from_bytes(arg) {
        Ok(a) => match a.args.first() {
            Some(candid::IDLValue::Record(fs)) => Some(fs.iter().map(|f| (f.id.get_id(), match &f.val {
                candid::IDLValue::Principal(p) => Some(p.as_slice().to_vec()),
                _ => None,
            })).collect()),
            _ => None,
        },
        Err(_) => None,
    }
}

/// The management method that `name` names.
pub open spec fn mgmt_method(name: Seq<char>) -> Option<MgmtMethod> {
    if name == "create_canister"@ {
        Some(MgmtMethod::CreateCanister)
    } else if name == "raw_rand"@ {
        Some(MgmtMethod::RawRand)
    } else if name == "install_code"@ {
        Some(MgmtMethod::InstallCode)
    } else if name == "update_settings"@ {
        Some(MgmtMethod::UpdateSettings)
    } else if name == "start_canister"@ {
        Some(MgmtMethod::StartCanister)
    } else if name == "stop_canister"@ {
        Some(MgmtMethod::StopCanister)
    } else if name == "canister_status"@ {
        Some(MgmtMethod::CanisterStatus)
    } else if name == "delete_canister"@ {
        Some(MgmtMethod::DeleteCanister)
    } else if name == "deposit_cycles"@ {
        Some(MgmtMethod::DepositCycles)
    } else if name == "uninstall_code"@ {
        Some(MgmtMethod::UninstallCode)
    } else if name == "provisional_top_up_canister"@ {
        Some(MgmtMethod::ProvisionalTopUpCanister)
    } else if name == "provisional_create_canister_with_cycles"@ {
        Some(MgmtMethod::ProvisionalCreateCanisterWithCycles)
    } else {
        None
    }
}

fn is_named(m: &String, lit: &str) -> (r: bool)
    ensures
        r == (m@ == lit@),
{
    m.eq(&lit.to_owned())
}

/// Reads the name of a management method.
pub fn parse_mgmt_method(name: &str) -> (r: Option<MgmtMethod>)
    ensures
        r == mgmt_method(name@),
{
    let m = name.to_owned();
    if is_named(&m, "create_canister") {
        Some(MgmtMethod::CreateCanister)
    } else if is_named(&m, "raw_rand") {
        Some(MgmtMethod::RawRand)
    } else if is_named(&m, "install_code") {
        Some(MgmtMethod::InstallCode)
    } else if is_named(&m, "update_settings") {
        Some(MgmtMethod::UpdateSettings)
    } else if is_named(&m, "start_canister") {
        Some(MgmtMethod::StartCanister)
    } else if is_named(&m, "stop_canister") {
        Some(MgmtMethod::StopCanister)
    } else if is_named(&m, "canister_status") {
        Some(MgmtMethod::CanisterStatus)
    } else if is_named(&m, "delete_canister") {
        Some(MgmtMethod::DeleteCanister)
    } else if is_named(&m, "deposit_cycles") {
        Some(MgmtMethod::DepositCycles)
    } else if is_named(&m, "uninstall_code") {
        Some(MgmtMethod::UninstallCode)
    } else if is_named(&m, "provisional_top_up_canister") {
        Some(MgmtMethod::ProvisionalTopUpCanister)
    } else if is_named(&m, "provisional_create_canister_with_cycles") {
        Some(MgmtMethod::ProvisionalCreateCanisterWithCycles)
    } else {
        None
    }
}

/// The value of the first field with id `id`: `Some(None)` where that value
/// is not a principal, `None` where no field has that id.
pub open spec fn field_lookup(fs: Seq<(u32, Option<Seq<u8>>)>, id: u32) -> Option<Option<Seq<u8>>>
    decreases fs.len(),
{
    if fs.len() == 0 {
        None
    } else if fs[0].0 == id {
        Some(fs[0].1)
    } else {
        field_lookup(fs.subrange(1, fs.len() as int), id)
    }
}

/// The canister named by a decoded argument: its principal `canister_id` field.
pub open spec fn record_target(record: Option<Seq<(u32, Option<Seq<u8>>)>>) -> Result<Seq<u8>, TargetError> {
    match record {
        Some(fs) => match field_lookup(fs, CANISTER_ID_LABEL) {
            Some(Some(p)) => Ok(p),
            _ => Err(TargetError::ArgumentDecodeError),
        },
        None => Err(TargetError::ArgumentDecodeError),
    }
}

/// The canister that a call to the management canister's `method` affects,
/// given the decoded argument.
pub open spec fn mgmt_target(method: Seq<char>, record: Option<Seq<(u32, Option<Seq<u8>>)>>) -> Result<Seq<u8>, TargetError> {
    match mgmt_method(method) {
        None => Err(TargetError::UnsupportedManagementMethod),
        Some(MgmtMethod::CreateCanister) | Some(MgmtMethod::RawRand) => Err(TargetError::RequiresInterCanisterContext),
        Some(MgmtMethod::ProvisionalCreateCanisterWithCycles) => Ok(management_canister()),
        Some(_) => record_target(record),
    }
}

/// Picks the principal `canister_id` field out of a decoded argument.
pub fn target_from_record(record: Option<Vec<(u32, Option<Vec<u8>>)>>) -> (r: Result<Vec<u8>, TargetError>)
    ensures
        match record_target(record.deep_view()) {
            Ok(p) => r is Ok && r->Ok_0@ == p,
            Err(e) => r matches Err(e2) && e2 == e,
        },
{
    let ghost rec = record.deep_view();
    let fs = match record {
        Some(fs) => fs,
        None => return Err(TargetError::ArgumentDecodeError),
    };
    let ghost dv = fs.deep_view();
    assert(dv.subrange(0, dv.len() as int) =~= dv);
    let mut i: usize = 0;
    while i < fs.len()
        invariant
            i <= fs@.len(),
            dv == fs.deep_view(),
            rec == Some(dv),
            rec == record.deep_view(),
            field_lookup(dv, CANISTER_ID_LABEL) == field_lookup(dv.subrange(i as int, dv.len() as int), CANISTER_ID_LABEL),
        decreases fs@.len() - i,
    {
        let ghost rest = dv.subrange(i as int, dv.len() as int);
        assert(rest.subrange(1, rest.len() as int) =~= dv.subrange(i + 1, dv.len() as int));
        assert(rest[0] == dv[i as int]);
        if fs[i].0 == CANISTER_ID_LABEL {
            match &fs[i].1 {
                Some(p) => {
                    assert(dv[i as int] == fs@[i as int].deep_view());
                    assert(p.deep_view() =~= p@);
                    return Ok(p.clone());
                },
                None => {
                    assert(dv[i as int] == fs@[i as int].deep_view());
                    return Err(TargetError::ArgumentDecodeError);
                },
            }
        }
        i = i + 1;
    }
    Err(TargetError::ArgumentDecodeError)
}

/// The canister that a call to the management canister affects, given the
/// argument once decoded.
pub fn mgmt_target_from_record(method_name: &str, record: Option<Vec<(u32, Option<Vec<u8>>)>>) -> (r: Result<Vec<u8>, TargetError>)
    ensures
        match mgmt_target(method_name@, record.deep_view()) {
            Ok(p) => r is Ok && r->Ok_0@ == p,
            Err(e) => r matches Err(e2) && e2 == e,
        },
{
    match parse_mgmt_method(method_name) {
        None => Err(TargetError::UnsupportedManagementMethod),
        Some(MgmtMethod::CreateCanister) | Some(MgmtMethod::RawRand) => Err(TargetError::RequiresInterCanisterContext),
        Some(MgmtMethod::ProvisionalCreateCanisterWithCycles) => Ok(Vec::new()),
        Some(_) => target_from_record(record),
    }
}

/// The canister that a call really affects: the callee itself, or for the
/// management canister the canister that the argument names.
pub fn get_effective_canister_id(
    is_management_canister: bool,
    method_name: &str,
    arg_value: &[u8],
    canister_id: Vec<u8>,
) -> (r: Result<Vec<u8>, TargetError>)
    ensures
        !is_management_canister ==> r is Ok && r->Ok_0@ == canister_id@,
        is_management_canister ==> match mgmt_target(method_name@, candid_record_of(arg_value@)) {
            Ok(p) => r is Ok && r->Ok_0@ == p,
            Err(e) => r matches Err(e2) && e2 == e,
        },
{
    if !is_management_canister {
        return Ok(canister_id);
    }
    match parse_mgmt_method(method_name) {
        Some(m) => {
            if m == MgmtMethod::CreateCanister || m == MgmtMethod::RawRand || m == MgmtMethod::ProvisionalCreateCanisterWithCycles {
                mgmt_target_from_record(method_name, None)
            } else {
                mgmt_target_from_record(method_name, decode_record(arg_value))
            }
        },
        None => Err(TargetError::UnsupportedManagementMethod),
    }
}

/// A call of the management canister's `update_settings` whose argument is a
/// record with a principal `canister_id` field affects the canister that
/// this field names.
pub proof fn lemma_update_settings_target(fields: Seq<(u32, Option<Seq<u8>>)>, target: Seq<u8>)
    requires
        field_lookup(fields, CANISTER_ID_LABEL) == Some(Some(target)),
    ensures
        mgmt_target("update_settings"@, Some(fields)) == Ok::<Seq<u8>, TargetError>(target),
{
    reveal_strlit("create_canister");
    reveal_strlit("raw_rand");
    reveal_strlit("install_code");
    reveal_strlit("update_settings");
    assert("update_settings"@[0] != "create_canister"@[0]);
    assert("update_settings"@[0] != "raw_rand"@[0]);
    assert("update_settings"@[0] != "install_code"@[0]);
}

} // verus!
