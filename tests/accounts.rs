use icx_sign::account::{AccountIdError, AccountIdentifier, Subaccount};
use icx_sign::neuron::{
    convert_name_to_memo, derive_staking_subaccount, get_neuron_subaccount,
    neuron_name_validator, neuron_stake_destination, NeuronError,
};

const ANONYMOUS: [u8; 1] = [4];

#[test]
fn anonymous_default_account() {
    let id = AccountIdentifier::new(&ANONYMOUS, None);
    assert_eq!(
        id.to_hex(),
        "1c7a48ba6a562aa9eaa2481a9049cdf0433b9738c992d698c31d8abf89cadc79"
    );
    let zero = Subaccount { bytes: vec![0u8; 32] };
    assert_eq!(AccountIdentifier::new(&ANONYMOUS, Some(&zero)).hash, id.hash);
}

#[test]
fn account_layout_matches_digests() {
    let principal = [1u8, 2, 3, 4, 5];
    let sub = Subaccount { bytes: vec![7u8; 32] };
    let id = AccountIdentifier::new(&principal, Some(&sub));
    let mut data = b"\x0aaccount-id".to_vec();
    data.extend_from_slice(&principal);
    data.extend_from_slice(&sub.bytes);
    let hash = openssl::sha::sha224(&data);
    assert_eq!(id.hash, hash.to_vec());
    assert_eq!(id.checksum(), crc32fast::hash(&hash).to_be_bytes().to_vec());
}

#[test]
fn text_round_trip() {
    for principal in [vec![], vec![4u8], vec![9u8; 29]] {
        for sub in [None, Some(Subaccount { bytes: (0u8..32).collect() })] {
            let id = AccountIdentifier::new(&principal, sub.as_ref());
            let back = AccountIdentifier::from_hex(&id.to_hex()).unwrap();
            assert_eq!(back.hash, id.hash);
        }
    }
}

#[test]
fn upper_case_text_is_read() {
    let id = AccountIdentifier::new(&ANONYMOUS, None);
    let upper = id.to_hex().to_uppercase();
    assert_eq!(AccountIdentifier::from_hex(&upper).unwrap().hash, id.hash);
}

#[test]
fn changed_digit_fails_checksum() {
    let text = AccountIdentifier::new(&ANONYMOUS, None).to_hex();
    for i in 0..text.len() {
        let mut b = text.clone().into_bytes();
        b[i] = if b[i] == b'0' { b'1' } else { b'0' };
        let changed = String::from_utf8(b).unwrap();
        assert_eq!(
            AccountIdentifier::from_hex(&changed).err(),
            Some(AccountIdError::ChecksumMismatch)
        );
    }
}

#[test]
fn malformed_account_texts() {
    assert_eq!(AccountIdentifier::from_hex("abc").err(), Some(AccountIdError::InvalidHex));
    assert_eq!(AccountIdentifier::from_hex("zz").err(), Some(AccountIdError::InvalidHex));
    assert_eq!(AccountIdentifier::from_hex("abcd").err(), Some(AccountIdError::InvalidLength));
    assert_eq!(AccountIdentifier::from_hex("").err(), Some(AccountIdError::InvalidLength));
}

#[test]
fn name_to_memo() {
    assert_eq!(convert_name_to_memo("abc"), 6382179);
    assert_eq!(convert_name_to_memo(""), 0);
    assert_eq!(convert_name_to_memo("abcdefgh"), 0x6162636465666768);
}

#[test]
fn name_validator() {
    assert!(neuron_name_validator("12345678").is_ok());
    assert_eq!(
        neuron_name_validator("123456789"),
        Err("The neuron name must be 8 character or less".to_string())
    );
}

#[test]
fn staking_subaccount_is_deterministic() {
    let a = derive_staking_subaccount(&ANONYMOUS, "abc").unwrap();
    let b = derive_staking_subaccount(&ANONYMOUS, "abc").unwrap();
    assert_eq!(a.bytes, b.bytes);
    assert_eq!(
        a.bytes,
        get_neuron_subaccount(&ANONYMOUS, 6382179).bytes
    );
    let mut data = b"\x0cneuron-stake".to_vec();
    data.push(4);
    data.extend_from_slice(&6382179u64.to_be_bytes());
    assert_eq!(a.bytes, openssl::sha::sha256(&data).to_vec());
}

#[test]
fn long_neuron_name_is_refused() {
    assert_eq!(
        derive_staking_subaccount(&ANONYMOUS, "123456789").err(),
        Some(NeuronError::NameTooLong)
    );
}

#[test]
fn stake_destination_account() {
    let (to, memo) = neuron_stake_destination(&ANONYMOUS, "abc").unwrap();
    assert_eq!(memo, 6382179);
    assert_eq!(
        to.to_hex(),
        "6d3b11f6fa285f7e5e2374fa3b30a144f6b4f58487eb63a59495265545f5113f"
    );
}
