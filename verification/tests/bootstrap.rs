use pink_drink::bootstrap::{set_driver_input, Artifacts, BootstrapError};
use pink_drink::cluster::ClusterConfig;
use pink_drink::host::{
    CallRequest, CodeUploadReturnValue, CollectEvents, ContractExecResult,
    ContractInstantiateResult, DebugInfo, Determinism, ExecReturnValue, HostError,
    InstantiateRequest, InstantiateReturnValue, UploadRequest, Weight,
};
use pink_drink::runtime::PinkRuntime;
use pink_drink::types::{AccountId, H256};
use std::cell::RefCell;

fn artifacts() -> Artifacts {
    Artifacts { system: vec![1, 1], qjs: vec![2, 2], qjs2: vec![3, 3], phatjs: vec![4, 4, 4] }
}

fn hash_of(code: &[u8]) -> H256 {
    H256([code[0]; 32])
}

fn stored(req: &UploadRequest) -> Result<CodeUploadReturnValue, HostError> {
    Ok(CodeUploadReturnValue { code_hash: hash_of(&req.code), deposit: 0 })
}

fn created_at(address: [u8; 32]) -> ContractInstantiateResult {
    ContractInstantiateResult {
        result: Ok(InstantiateReturnValue {
            result: ExecReturnValue { reverted: false, data: vec![] },
            account_id: AccountId(address),
        }),
    }
}

fn returned() -> ContractExecResult {
    ContractExecResult { result: Ok(ExecReturnValue { reverted: false, data: vec![] }) }
}

fn failure(text: &str) -> HostError {
    HostError { debug: text.to_string() }
}

fn dirty_cluster() -> ClusterConfig {
    let mut cluster = ClusterConfig::new();
    cluster.cluster_id = H256([9u8; 32]);
    cluster.gas_price = 5;
    cluster.deposit_per_item = 6;
    cluster.deposit_per_byte = 7;
    cluster.treasury_account = AccountId([8u8; 32]);
    cluster.js_runtime = vec![0xaa];
    cluster.next_event_block_number = 12;
    cluster
}

#[test]
fn the_first_block_bootstraps_the_cluster() {
    let log: RefCell<Vec<String>> = RefCell::new(Vec::new());
    let uploads: RefCell<Vec<UploadRequest>> = RefCell::new(Vec::new());
    let calls: RefCell<Vec<CallRequest>> = RefCell::new(Vec::new());
    let deployment: RefCell<Option<InstantiateRequest>> = RefCell::new(None);
    let mut cluster = dirty_cluster();
    let r = PinkRuntime::initialize_block(
        1,
        H256([0u8; 32]),
        &mut cluster,
        artifacts(),
        &|_cluster: &ClusterConfig, req: UploadRequest| {
            log.borrow_mut().push("upload".to_string());
            let r = stored(&req);
            uploads.borrow_mut().push(req);
            r
        },
        |_cluster: &ClusterConfig, req: InstantiateRequest| {
            log.borrow_mut().push("instantiate".to_string());
            *deployment.borrow_mut() = Some(req);
            created_at([0x55; 32])
        },
        &|_cluster: &ClusterConfig, req: CallRequest| {
            log.borrow_mut().push("call".to_string());
            calls.borrow_mut().push(req);
            returned()
        },
    );
    assert!(r.is_ok());
    assert_eq!(
        log.into_inner(),
        vec!["upload", "instantiate", "upload", "call", "upload", "call"]
    );

    assert_eq!(cluster.cluster_id, H256([0u8; 32]));
    assert_eq!(cluster.gas_price, 0);
    assert_eq!(cluster.deposit_per_item, 0);
    assert_eq!(cluster.deposit_per_byte, 0);
    assert_eq!(cluster.treasury_account, AccountId([0u8; 32]));
    assert_eq!(cluster.system_contract, Some(AccountId([0x55; 32])));
    assert_eq!(cluster.system_contract(), Some(AccountId([0x55; 32])));
    assert_eq!(cluster.js_runtime, vec![4, 4, 4]);
    assert_eq!(cluster.next_event_block_number, 12);

    let uploads = uploads.into_inner();
    assert_eq!(uploads.len(), 3);
    assert_eq!(uploads[0].code, vec![1, 1]);
    assert_eq!(uploads[0].determinism, Determinism::Enforced);
    assert_eq!(uploads[1].code, vec![2, 2]);
    assert_eq!(uploads[1].determinism, Determinism::Relaxed);
    assert_eq!(uploads[2].code, vec![3, 3]);
    assert_eq!(uploads[2].determinism, Determinism::Relaxed);
    for upload in uploads.iter() {
        assert_eq!(upload.origin, AccountId([1u8; 32]));
        assert_eq!(upload.storage_deposit_limit, None);
    }

    let deployment = deployment.into_inner().unwrap();
    assert_eq!(deployment.origin, AccountId([1u8; 32]));
    assert_eq!(deployment.value, 0);
    assert_eq!(deployment.gas_limit, Weight { ref_time: u64::MAX, proof_size: u64::MAX });
    assert_eq!(deployment.storage_deposit_limit, None);
    assert_eq!(deployment.code_hash, H256([1u8; 32]));
    assert_eq!(deployment.data, vec![0xed, 0x4b, 0x9d, 0x1b]);
    assert_eq!(deployment.salt, Vec::<u8>::new());
    assert_eq!(deployment.debug, DebugInfo::UnsafeDebug);
    assert_eq!(deployment.collect_events, CollectEvents::Skip);

    let calls = calls.into_inner();
    assert_eq!(calls.len(), 2);
    let mut first = vec![0xaa, 0x1e, 0x20, 0x30, 40];
    first.extend_from_slice(b"JsDelegate");
    first.extend_from_slice(&[2u8; 32]);
    let mut second = vec![0xaa, 0x1e, 0x20, 0x30, 44];
    second.extend_from_slice(b"JsDelegate2");
    second.extend_from_slice(&[3u8; 32]);
    assert_eq!(calls[0].data, first);
    assert_eq!(calls[1].data, second);
    for call in calls.iter() {
        assert_eq!(call.origin, AccountId([1u8; 32]));
        assert_eq!(call.dest, AccountId([0x55; 32]));
        assert_eq!(call.value, 0);
        assert_eq!(call.gas_limit, Weight { ref_time: u64::MAX, proof_size: u64::MAX });
        assert_eq!(call.storage_deposit_limit, None);
        assert_eq!(call.determinism, Determinism::Enforced);
        assert_eq!(call.debug, DebugInfo::Skip);
        assert_eq!(call.collect_events, CollectEvents::Skip);
    }
}

#[test]
fn each_step_sees_the_cluster_as_the_steps_before_left_it() {
    let seen: RefCell<Vec<(u128, Option<AccountId>, Vec<u8>)>> = RefCell::new(Vec::new());
    let note = |cluster: &ClusterConfig| {
        seen.borrow_mut().push((
            cluster.gas_price,
            cluster.system_contract,
            cluster.js_runtime.clone(),
        ));
    };
    let mut cluster = dirty_cluster();
    let r = PinkRuntime::setup_cluster(
        &mut cluster,
        artifacts(),
        &|cluster: &ClusterConfig, req: UploadRequest| {
            note(cluster);
            stored(&req)
        },
        |cluster: &ClusterConfig, _req: InstantiateRequest| {
            note(cluster);
            created_at([0x55; 32])
        },
        &|cluster: &ClusterConfig, _req: CallRequest| {
            note(cluster);
            returned()
        },
    );
    assert!(r.is_ok());
    let before = (0u128, None, vec![0xaau8]);
    let after = (0u128, Some(AccountId([0x55; 32])), vec![0xaau8]);
    assert_eq!(
        seen.into_inner(),
        vec![before.clone(), before, after.clone(), after.clone(), after.clone(), after]
    );
    assert_eq!(cluster.js_runtime, vec![4, 4, 4]);
}

#[test]
fn other_blocks_change_nothing_and_call_nothing() {
    for height in [0u32, 2, 3, u32::MAX] {
        let mut cluster = dirty_cluster();
        cluster.system_contract = Some(AccountId([0x55; 32]));
        let r = PinkRuntime::initialize_block(
            height,
            H256([7u8; 32]),
            &mut cluster,
            artifacts(),
            &|_cluster: &ClusterConfig, _req: UploadRequest| -> Result<CodeUploadReturnValue, HostError> { panic!("no upload expected") },
            |_cluster: &ClusterConfig, _req: InstantiateRequest| -> ContractInstantiateResult { panic!("no instantiation expected") },
            &|_cluster: &ClusterConfig, _req: CallRequest| -> ContractExecResult { panic!("no call expected") },
        );
        assert!(r.is_ok());
        assert_eq!(cluster.cluster_id, H256([9u8; 32]));
        assert_eq!(cluster.gas_price, 5);
        assert_eq!(cluster.deposit_per_item, 6);
        assert_eq!(cluster.deposit_per_byte, 7);
        assert_eq!(cluster.treasury_account, AccountId([8u8; 32]));
        assert_eq!(cluster.system_contract, Some(AccountId([0x55; 32])));
        assert_eq!(cluster.js_runtime, vec![0xaa]);
    }
}

#[test]
fn bootstrap_then_later_block_keeps_the_system_contract() {
    let mut cluster = ClusterConfig::new();
    let first = PinkRuntime::initialize_block(
        1,
        H256([0u8; 32]),
        &mut cluster,
        artifacts(),
        &|_cluster: &ClusterConfig, req: UploadRequest| stored(&req),
        |_cluster: &ClusterConfig, _req: InstantiateRequest| created_at([0x55; 32]),
        &|_cluster: &ClusterConfig, _req: CallRequest| returned(),
    );
    assert!(first.is_ok());
    let second = PinkRuntime::initialize_block(
        2,
        H256([1u8; 32]),
        &mut cluster,
        artifacts(),
        &|_cluster: &ClusterConfig, _req: UploadRequest| -> Result<CodeUploadReturnValue, HostError> { panic!("no upload expected") },
        |_cluster: &ClusterConfig, _req: InstantiateRequest| -> ContractInstantiateResult { panic!("no instantiation expected") },
        &|_cluster: &ClusterConfig, _req: CallRequest| -> ContractExecResult { panic!("no call expected") },
    );
    assert!(second.is_ok());
    assert_eq!(cluster.system_contract(), Some(AccountId([0x55; 32])));
    assert_eq!(cluster.js_runtime, vec![4, 4, 4]);
}

fn run_failing_at(step: usize) -> (Result<(), BootstrapError>, ClusterConfig, usize) {
    let count: RefCell<usize> = RefCell::new(0);
    let mut cluster = dirty_cluster();
    let r = PinkRuntime::setup_cluster(
        &mut cluster,
        artifacts(),
        &|_cluster: &ClusterConfig, req: UploadRequest| {
            *count.borrow_mut() += 1;
            if *count.borrow() == step { Err(failure("Upload \"refused\"")) } else { stored(&req) }
        },
        |_cluster: &ClusterConfig, _req: InstantiateRequest| {
            *count.borrow_mut() += 1;
            if *count.borrow() == step {
                ContractInstantiateResult { result: Err(failure("NoCode")) }
            } else {
                created_at([0x55; 32])
            }
        },
        &|_cluster: &ClusterConfig, _req: CallRequest| {
            *count.borrow_mut() += 1;
            if *count.borrow() == step {
                ContractExecResult { result: Err(failure("Trapped")) }
            } else {
                returned()
            }
        },
    );
    let made = *count.borrow();
    (r, cluster, made)
}

#[test]
fn a_failed_upload_of_the_system_code_ends_the_bootstrap() {
    let (r, cluster, made) = run_failing_at(1);
    let e = r.unwrap_err();
    assert!(matches!(&e, BootstrapError::UploadSystemCode(t) if t == "Upload \"refused\""));
    assert_eq!(e.describe(), "FailedToUploadSystemCode: \"Upload \\\"refused\\\"\"");
    assert_eq!(made, 1);
    assert_eq!(cluster.system_contract, None);
    assert_eq!(cluster.js_runtime, vec![0xaa]);
    assert_eq!(cluster.gas_price, 0);
    assert_eq!(cluster.cluster_id, H256([0u8; 32]));
}

#[test]
fn a_failed_instantiation_ends_the_bootstrap() {
    let (r, cluster, made) = run_failing_at(2);
    let e = r.unwrap_err();
    assert!(matches!(&e, BootstrapError::InstantiateSystem(t) if t == "NoCode"));
    assert_eq!(e.describe(), "Failed to instantiate system contract: NoCode");
    assert_eq!(made, 2);
    assert_eq!(cluster.system_contract, None);
    assert_eq!(cluster.js_runtime, vec![0xaa]);
}

#[test]
fn later_failures_keep_the_system_contract_but_not_the_js_runtime() {
    let (r, cluster, made) = run_failing_at(3);
    let e = r.unwrap_err();
    assert!(matches!(&e, BootstrapError::UploadQjsCode(_)));
    assert_eq!(e.describe(), "FailedToUploadQjsCode: \"Upload \\\"refused\\\"\"");
    assert_eq!(made, 3);
    assert_eq!(cluster.system_contract, Some(AccountId([0x55; 32])));
    assert_eq!(cluster.js_runtime, vec![0xaa]);

    let (r, cluster, made) = run_failing_at(4);
    let e = r.unwrap_err();
    assert!(matches!(&e, BootstrapError::CallSetDriver(t) if t == "Trapped"));
    assert_eq!(e.describe(), "FailedToCallSetDriver: \"Trapped\"");
    assert_eq!(made, 4);
    assert_eq!(cluster.system_contract, Some(AccountId([0x55; 32])));

    let (r, _cluster, made) = run_failing_at(5);
    let e = r.unwrap_err();
    assert!(matches!(&e, BootstrapError::UploadQjs2Code(_)));
    assert_eq!(e.describe(), "FailedToUploadQjs2Code: \"Upload \\\"refused\\\"\"");
    assert_eq!(made, 5);

    let (r, cluster, made) = run_failing_at(6);
    let e = r.unwrap_err();
    assert!(matches!(&e, BootstrapError::CallSetDriver(_)));
    assert_eq!(made, 6);
    assert_eq!(cluster.js_runtime, vec![0xaa]);
}

#[test]
fn a_failing_first_block_reports_the_message() {
    let mut cluster = ClusterConfig::new();
    let r = PinkRuntime::initialize_block(
        1,
        H256([0u8; 32]),
        &mut cluster,
        artifacts(),
        &|_cluster: &ClusterConfig, _req: UploadRequest| Err(failure("CodeRejected")),
        |_cluster: &ClusterConfig, _req: InstantiateRequest| created_at([0x55; 32]),
        &|_cluster: &ClusterConfig, _req: CallRequest| returned(),
    );
    assert_eq!(r.unwrap_err().describe(), "FailedToUploadSystemCode: \"CodeRejected\"");
}

#[test]
fn the_input_of_a_driver_registration_is_selector_name_and_target() {
    let input = set_driver_input("JsDelegate", &[7u8; 32]);
    let mut expected = vec![0xaa, 0x1e, 0x20, 0x30, 10 << 2];
    expected.extend_from_slice(b"JsDelegate");
    expected.extend_from_slice(&[7u8; 32]);
    assert_eq!(input, expected);
    assert_eq!(set_driver_input("", &[]), vec![0xaa, 0x1e, 0x20, 0x30, 0]);
}

#[test]
fn long_names_get_a_wider_length() {
    let name = "n".repeat(64);
    let input = set_driver_input(&name, &[9]);
    assert_eq!(&input[..6], &[0xaa, 0x1e, 0x20, 0x30, 0x01, 0x01]);
    assert_eq!(input.len(), 4 + 2 + 64 + 1);
    assert_eq!(input[input.len() - 1], 9);

    let name = "n".repeat(0x4000);
    let input = set_driver_input(&name, &[]);
    assert_eq!(&input[..8], &[0xaa, 0x1e, 0x20, 0x30, 0x02, 0x00, 0x01, 0x00]);
    assert_eq!(input.len(), 4 + 4 + 0x4000);

    let name = "é".repeat(3);
    let input = set_driver_input(&name, &[]);
    assert_eq!(input, vec![0xaa, 0x1e, 0x20, 0x30, 6 << 2, 0xc3, 0xa9, 0xc3, 0xa9, 0xc3, 0xa9]);
}
