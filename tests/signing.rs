use candid::types::value::IDLField;
use candid::types::Label;
use candid::{IDLArgs, IDLValue, Principal};
use icx_sign::envelope::{
    decide_call_kind, expiration_after, parse_expire_after, plan_call, seal_message, CallKind,
    SignError, SignRequest,
};
use icx_sign::identity::{Identity, IdentityError};
use icx_sign::target::{
    get_effective_canister_id, parse_mgmt_method, MgmtMethod, TargetError, CANISTER_ID_LABEL,
};
use icx_sign::transfer::{
    prepare_transfer, status_poll_request_id, transfer_bundle, TransferError, TransferOpts,
};
use icx_sign::account::{AccountIdError, AccountIdentifier};
use icx_sign::amount::AmountError;

fn record(fields: Vec<(&str, IDLValue)>) -> Vec<u8> {
    let mut fs: Vec<IDLField> = fields
        .into_iter()
        .map(|(n, v)| IDLField { id: Label::Named(n.to_string()), val: v })
        .collect();
    fs.sort_by_key(|f| f.id.get_id());
    IDLArgs::new(&[IDLValue::Record(fs)]).to_bytes().unwrap()
}

fn request(canister: Vec<u8>, method: &str, arg: Vec<u8>, query: bool) -> SignRequest {
    SignRequest {
        network: "https://ic0.app".to_string(),
        sender: vec![4],
        canister_id: canister,
        method_name: method.to_string(),
        arg,
        query,
        update: false,
        expire_after: "5m".to_string(),
    }
}

#[test]
fn canister_id_label_is_its_candid_hash() {
    assert_eq!(CANISTER_ID_LABEL, candid::idl_hash("canister_id"));
}

#[test]
fn call_kind_rules() {
    assert_eq!(decide_call_kind(None, false, false), Ok(CallKind::Update));
    assert_eq!(decide_call_kind(None, true, false), Ok(CallKind::Query));
    assert_eq!(decide_call_kind(Some(false), true, false), Err(SignError::MethodKindMismatch));
    assert_eq!(decide_call_kind(Some(false), false, false), Ok(CallKind::Update));
    assert_eq!(decide_call_kind(Some(true), false, false), Ok(CallKind::Query));
    assert_eq!(decide_call_kind(Some(true), false, true), Ok(CallKind::Update));
}

#[test]
fn five_minutes_of_validity() {
    assert_eq!(parse_expire_after("5m"), Ok(300));
    assert_eq!(parse_expire_after("1h 30m"), Ok(5400));
    assert_eq!(parse_expire_after("soon"), Err(SignError::InvalidDuration));
    let plan = plan_call(request(vec![1, 2, 3], "greet", vec![], false), None, 1_000).unwrap();
    assert_eq!(plan.expiration - plan.creation, 300_000_000_000);
    assert_eq!(plan.kind, CallKind::Update);
    assert_eq!(plan.effective_canister_id, vec![1, 2, 3]);
}

#[test]
fn expiration_bounds() {
    assert_eq!(expiration_after(5, 2), Ok(2_000_000_005));
    assert_eq!(expiration_after(u64::MAX - 10, 1), Err(SignError::DurationOverflow));
    assert_eq!(expiration_after(0, u64::MAX), Err(SignError::DurationOverflow));
    assert_eq!(expiration_after(7, 0), Err(SignError::InvalidDuration));
}

#[test]
fn query_on_known_update_method_is_refused() {
    let r = plan_call(request(vec![1], "greet", vec![], true), Some(false), 0);
    assert_eq!(r.err(), Some(SignError::MethodKindMismatch));
    let plan = plan_call(request(vec![1], "greet", vec![], false), None, 0).unwrap();
    let msg = seal_message(plan, vec![9, 9], Some(vec![1; 32])).unwrap();
    assert_eq!(msg.call_type, CallKind::Update);
    assert_eq!(msg.request_id, Some(vec![1; 32]));
}

#[test]
fn sealing_requires_request_id_for_updates_only() {
    let plan = plan_call(request(vec![1], "greet", vec![], false), None, 0).unwrap();
    assert_eq!(seal_message(plan, vec![], None).err(), Some(SignError::MissingRequestId));
    let plan = plan_call(request(vec![1], "greet", vec![], true), None, 0).unwrap();
    let msg = seal_message(plan, vec![1], Some(vec![2])).unwrap();
    assert_eq!(msg.request_id, None);
    assert_eq!(msg.content, vec![1]);
}

#[test]
fn update_settings_targets_named_canister() {
    let y = Principal::from_slice(&[0, 0, 0, 0, 0, 0, 0, 7, 1, 1]);
    let arg = record(vec![
        ("canister_id", IDLValue::Principal(y)),
        ("settings", IDLValue::Record(vec![])),
    ]);
    assert_eq!(get_effective_canister_id(true, "update_settings", &arg, vec![]), Ok(y.as_slice().to_vec()));
    let plan = plan_call(request(vec![], "update_settings", arg, false), None, 0).unwrap();
    assert_eq!(plan.effective_canister_id, y.as_slice().to_vec());
    assert_eq!(plan.canister_id, Vec::<u8>::new());
}

#[test]
fn management_method_table() {
    let y = Principal::from_slice(&[5, 6]);
    let arg = record(vec![("canister_id", IDLValue::Principal(y))]);
    for m in ["start_canister", "stop_canister", "canister_status", "delete_canister", "deposit_cycles", "uninstall_code", "provisional_top_up_canister"] {
        assert_eq!(get_effective_canister_id(true, m, &arg, vec![]), Ok(vec![5, 6]));
    }
    assert_eq!(
        get_effective_canister_id(true, "provisional_create_canister_with_cycles", &[], vec![]),
        Ok(vec![])
    );
    assert_eq!(
        get_effective_canister_id(true, "create_canister", &arg, vec![]),
        Err(TargetError::RequiresInterCanisterContext)
    );
    assert_eq!(
        get_effective_canister_id(true, "raw_rand", &arg, vec![]),
        Err(TargetError::RequiresInterCanisterContext)
    );
    assert_eq!(
        get_effective_canister_id(true, "no_such_method", &arg, vec![]),
        Err(TargetError::UnsupportedManagementMethod)
    );
    assert_eq!(
        get_effective_canister_id(true, "install_code", &[1, 2, 3], vec![]),
        Err(TargetError::ArgumentDecodeError)
    );
    let wrong = record(vec![("canister_id", IDLValue::Text("x".to_string()))]);
    assert_eq!(
        get_effective_canister_id(true, "stop_canister", &wrong, vec![]),
        Err(TargetError::ArgumentDecodeError)
    );
    assert_eq!(get_effective_canister_id(false, "anything", &[1], vec![3]), Ok(vec![3]));
    assert_eq!(parse_mgmt_method("install_code"), Some(MgmtMethod::InstallCode));
    assert_eq!(parse_mgmt_method("Install_code"), None);
}

#[test]
fn install_code_targets_named_canister() {
    let y = Principal::from_slice(&[1, 2, 3, 4]);
    let arg = record(vec![
        ("mode", IDLValue::Variant(candid::types::value::VariantValue(
            Box::new(IDLField { id: Label::Named("install".to_string()), val: IDLValue::Null }),
            0,
        ))),
        ("canister_id", IDLValue::Principal(y)),
        ("wasm_module", IDLValue::Blob(vec![0, 97, 115, 109])),
        ("arg", IDLValue::Blob(vec![])),
    ]);
    assert_eq!(get_effective_canister_id(true, "install_code", &arg, vec![]), Ok(vec![1, 2, 3, 4]));
}

#[test]
fn bundle_holds_both_documents() {
    let b = transfer_bundle("{\"a\":1}", "{\"b\":2}");
    assert_eq!(b, "{ \"ingress\": {\"a\":1}, \"request_status\": {\"b\":2}}");
    let v: serde_json::Value = serde_json::from_str(&b).unwrap();
    assert!(v.get("ingress").is_some());
    assert!(v.get("request_status").is_some());
}

#[test]
fn transfer_arguments() {
    let to = AccountIdentifier::new(&[4], None).to_hex();
    let opts = TransferOpts { to: to.clone(), amount: Some("1.5".to_string()), ..Default::default() };
    let args = prepare_transfer(&opts).unwrap();
    assert_eq!(args.amount.e8s, 150_000_000);
    assert_eq!(args.fee.e8s, 10_000);
    assert_eq!(args.memo, 0);
    assert_eq!(args.to.to_hex(), to);
    let bad = TransferOpts { to: "00".to_string(), amount: Some("1".to_string()), ..Default::default() };
    assert_eq!(prepare_transfer(&bad).err(), Some(TransferError::Account(AccountIdError::InvalidLength)));
    let amb = TransferOpts { to, amount: Some("1".to_string()), icp: Some("1".to_string()), ..Default::default() };
    assert_eq!(prepare_transfer(&amb).err(), Some(TransferError::Amount(AmountError::AmbiguousAmount)));
}

#[test]
fn corrupt_key_material() {
    assert_eq!(Identity::load("not a key".to_string()).err(), Some(IdentityError::CorruptKeyMaterial));
}

#[test]
fn status_poll_needs_an_update_message() {
    let plan = plan_call(request(vec![1], "greet", vec![], false), None, 0).unwrap();
    let msg = seal_message(plan, vec![], Some(vec![3; 32])).unwrap();
    assert_eq!(status_poll_request_id(&msg), Ok(vec![3; 32]));
    let plan = plan_call(request(vec![1], "greet", vec![], true), None, 0).unwrap();
    let msg = seal_message(plan, vec![], None).unwrap();
    assert_eq!(status_poll_request_id(&msg), Err(SignError::MissingRequestId));
}
