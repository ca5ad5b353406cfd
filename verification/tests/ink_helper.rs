use pink_drink::cluster::ClusterConfig;
use pink_drink::error::Error;
use pink_drink::host::{
    CallRequest, CodeUploadReturnValue, ContractExecResult, ContractInstantiateResult,
    Determinism, ExecReturnValue, HostError, InstantiateRequest, InstantiateReturnValue,
    UploadRequest, Weight,
};
use pink_drink::ink_helper::{bare_deploy, code_hash, into_contract, set_driver};
use pink_drink::types::{AccountId, H256};

fn created(address: [u8; 32], reverted: bool) -> ContractInstantiateResult {
    ContractInstantiateResult {
        result: Ok(InstantiateReturnValue {
            result: ExecReturnValue { reverted, data: vec![] },
            account_id: AccountId(address),
        }),
    }
}

#[test]
fn the_code_hash_is_the_blake2_256_digest() {
    assert_eq!(
        hex::encode(code_hash(b"")),
        "0e5751c026e543b2e8ab2eb06099daa1d1e5df47778f7787faab45cdf12fe3a8"
    );
    assert_eq!(code_hash(b"system.wasm"), sp_crypto_hashing::blake2_256(b"system.wasm"));
    assert_ne!(code_hash(b"a"), code_hash(b"b"));
    assert_eq!(code_hash(&[0u8; 32]), sp_crypto_hashing::blake2_256(&[0u8; 32]));
    assert_ne!(code_hash(&[0u8; 32]), [0u8; 32]);
}

#[test]
fn the_same_bytes_have_the_same_hash() {
    let blob = vec![0u8, 0x61, 0x73, 0x6d, 1, 0, 0, 0];
    assert_eq!(code_hash(&blob), code_hash(&blob.clone()));
}

#[test]
fn errors_carry_their_message() {
    let e = Error::msg("boom");
    assert_eq!(e.message(), "boom");
    let e = Error::from("plain");
    assert_eq!(e.message(), "plain");
    let e = Error::from("text".to_string());
    assert_eq!(e.message(), "text");
    assert_eq!(e.0, "text");
}

#[test]
fn into_contract_gives_the_address_unless_reverted() {
    assert_eq!(into_contract(created([2u8; 32], false)).unwrap(), AccountId([2u8; 32]));
    assert_eq!(
        into_contract(created([2u8; 32], true)).unwrap_err().message(),
        "Contract instantiation reverted"
    );
    let failed = ContractInstantiateResult { result: Err(HostError { debug: "Other(\"x\")".to_string() }) };
    assert_eq!(into_contract(failed).unwrap_err().message(), "Other(\"x\")");
}

#[test]
fn bare_deploy_uploads_then_instantiates() {
    let r = bare_deploy(
        AccountId([1u8; 32]),
        &[1, 2, 3],
        vec![0xed, 0x4b, 0x9d, 0x1b],
        vec![7],
        |req: UploadRequest| {
            assert_eq!(req.origin, AccountId([1u8; 32]));
            assert_eq!(req.code, vec![1, 2, 3]);
            assert_eq!(req.determinism, Determinism::Enforced);
            Ok(CodeUploadReturnValue { code_hash: H256([6u8; 32]), deposit: 0 })
        },
        |req: InstantiateRequest| {
            assert_eq!(req.origin, AccountId([1u8; 32]));
            assert_eq!(req.value, 0);
            assert_eq!(req.gas_limit, Weight { ref_time: 2_500_000_000_000, proof_size: u64::MAX });
            assert_eq!(req.storage_deposit_limit, None);
            assert_eq!(req.code_hash, H256([6u8; 32]));
            assert_eq!(req.data, vec![0xed, 0x4b, 0x9d, 0x1b]);
            assert_eq!(req.salt, vec![7]);
            created([9u8; 32], false)
        },
    );
    assert_eq!(r.unwrap().result.unwrap().account_id, AccountId([9u8; 32]));
}

#[test]
fn bare_deploy_stops_at_a_failed_upload() {
    let r = bare_deploy(
        AccountId([1u8; 32]),
        &[1, 2, 3],
        vec![],
        vec![],
        |_req: UploadRequest| Err(HostError { debug: "CodeTooLarge".to_string() }),
        |_req: InstantiateRequest| -> ContractInstantiateResult { panic!("nothing to instantiate") },
    );
    assert_eq!(r.unwrap_err().message(), "CodeTooLarge");
}

#[test]
fn set_driver_calls_the_system_contract() {
    let mut cluster = ClusterConfig::new();
    cluster.set_system_contract(AccountId([5u8; 32]));
    let r = set_driver(&cluster, AccountId([1u8; 32]), "PinkLogger", &[8u8; 32], |req: CallRequest| {
        assert_eq!(req.origin, AccountId([1u8; 32]));
        assert_eq!(req.dest, AccountId([5u8; 32]));
        assert_eq!(req.value, 0);
        assert_eq!(req.gas_limit, Weight { ref_time: u64::MAX, proof_size: u64::MAX });
        assert_eq!(req.determinism, Determinism::Enforced);
        let mut expected = vec![0xaa, 0x1e, 0x20, 0x30, 40];
        expected.extend_from_slice(b"PinkLogger");
        expected.extend_from_slice(&[8u8; 32]);
        assert_eq!(req.data, expected);
        ContractExecResult { result: Ok(ExecReturnValue { reverted: false, data: vec![] }) }
    });
    assert!(r.is_ok());
    assert_eq!(cluster.system_contract(), Some(AccountId([5u8; 32])));
}

#[test]
fn set_driver_twice_leaves_the_system_contract_alone() {
    let mut cluster = ClusterConfig::new();
    cluster.set_system_contract(AccountId([5u8; 32]));
    let ok = |_req: CallRequest| ContractExecResult {
        result: Ok(ExecReturnValue { reverted: false, data: vec![] }),
    };
    assert!(set_driver(&cluster, AccountId([1u8; 32]), "JsDelegate", &[1u8; 32], ok).is_ok());
    assert!(set_driver(&cluster, AccountId([1u8; 32]), "JsDelegate", &[2u8; 32], ok).is_ok());
    assert_eq!(cluster.system_contract(), Some(AccountId([5u8; 32])));
}

#[test]
fn a_failed_registration_is_reported_with_the_quoted_rendering() {
    let mut cluster = ClusterConfig::new();
    cluster.set_system_contract(AccountId([5u8; 32]));
    let r = set_driver(&cluster, AccountId([1u8; 32]), "JsDelegate", &[8u8; 32], |_req: CallRequest| {
        ContractExecResult { result: Err(HostError { debug: "Other(\"no\")".to_string() }) }
    });
    assert_eq!(r.unwrap_err().message(), "FailedToCallSetDriver: \"Other(\\\"no\\\")\"");
}

#[test]
fn without_a_system_contract_nothing_is_registered() {
    let cluster = ClusterConfig::new();
    let r = set_driver(&cluster, AccountId([1u8; 32]), "JsDelegate", &[8u8; 32], |_req: CallRequest| -> ContractExecResult {
        panic!("there is nothing to call")
    });
    assert_eq!(r.unwrap_err().message(), "System contract not found");
}
