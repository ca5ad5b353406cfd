//! The bootstrap of the cluster on its first block.
//!
//! Under the default actor the runtime resets the cluster settings, stores
//! and deploys the system contract, stores the two JS delegates and registers
//! each with the system contract as a driver, and keeps the JS runtime for
//! the sidecar. The first step that fails ends the bootstrap.

use vstd::prelude::*;
use vstd::string::StringSliceAdditionalSpecFns;
use crate::cluster::{ClusterConfig, ClusterView};
use crate::host::{
    CallRequest, CallRequestView, CodeUploadReturnValue, CollectEvents,
    ContractExecResult, ContractInstantiateResult, DebugInfo, HostError, InstantiateRequest,
    InstantiateRequestView, UploadRequest, Weight,
};
use crate::runtime::{call_request, default_actor_bytes, upload_request, PinkRuntime};
use crate::scale::{append_bytes, encode_str, scale_bytes};
use crate::text::{debug_quote, debug_quoted, joined};
use crate::types::{AccountId, BlockNumber, H256};

verus! {

/// The code blobs that the bootstrap installs.
#[derive(Debug)]
pub struct Artifacts {
    /// The system contract.
    pub system: Vec<u8>,
    /// The first JS delegate contract.
    pub qjs: Vec<u8>,
    /// The second JS delegate contract.
    pub qjs2: Vec<u8>,
    /// The JS runtime that the sidecar executes.
    pub phatjs: Vec<u8>,
}

/// The step at which a bootstrap failed, with the rendering of the failure.
#[derive(Debug)]
pub enum BootstrapError {
    /// The system contract's code was not stored.
    UploadSystemCode(String),
    /// The system contract was not created.
    InstantiateSystem(String),
    /// The first delegate's code was not stored.
    UploadQjsCode(String),
    /// The second delegate's code was not stored.
    UploadQjs2Code(String),
    /// The system contract did not register a driver.
    CallSetDriver(String),
}

/// The mathematical content of a [`BootstrapError`].
pub enum BootstrapErrorView {
    UploadSystemCode(Seq<char>),
    InstantiateSystem(Seq<char>),
    UploadQjsCode(Seq<char>),
    UploadQjs2Code(Seq<char>),
    CallSetDriver(Seq<char>),
}

impl View for BootstrapError {
    type V = BootstrapErrorView;

    open spec fn view(&self) -> BootstrapErrorView {
        match self {
            BootstrapError::UploadSystemCode(t) => BootstrapErrorView::UploadSystemCode(t@),
            BootstrapError::InstantiateSystem(t) => BootstrapErrorView::InstantiateSystem(t@),
            BootstrapError::UploadQjsCode(t) => BootstrapErrorView::UploadQjsCode(t@),
            BootstrapError::UploadQjs2Code(t) => BootstrapErrorView::UploadQjs2Code(t@),
            BootstrapError::CallSetDriver(t) => BootstrapErrorView::CallSetDriver(t@),
        }
    }
}

impl BootstrapErrorView {
    /// The message of the error: the name of the failed step, a colon, and
    /// the failure. A failure that came through an entry point of the
    /// runtime is a text and stands in its debug rendering.
    pub open spec fn message(self) -> Seq<char> {
        match self {
            BootstrapErrorView::UploadSystemCode(t) => "FailedToUploadSystemCode: "@
                + debug_quoted(t),
            BootstrapErrorView::InstantiateSystem(t) => "Failed to instantiate system contract: "@
                + t,
            BootstrapErrorView::UploadQjsCode(t) => "FailedToUploadQjsCode: "@ + debug_quoted(t),
            BootstrapErrorView::UploadQjs2Code(t) => "FailedToUploadQjs2Code: "@ + debug_quoted(t),
            BootstrapErrorView::CallSetDriver(t) => "FailedToCallSetDriver: "@ + debug_quoted(t),
        }
    }
}

impl BootstrapError {
    /// The message of the error.
    pub fn describe(&self) -> (r: String)
        ensures
            r@ == self@.message(),
    {
        match self {
            BootstrapError::UploadSystemCode(t) => joined(
                "FailedToUploadSystemCode: ",
                debug_quote(t.as_str()).as_str(),
            ),
            BootstrapError::InstantiateSystem(t) => joined(
                "Failed to instantiate system contract: ",
                t.as_str(),
            ),
            BootstrapError::UploadQjsCode(t) => joined(
                "FailedToUploadQjsCode: ",
                debug_quote(t.as_str()).as_str(),
            ),
            BootstrapError::UploadQjs2Code(t) => joined(
                "FailedToUploadQjs2Code: ",
                debug_quote(t.as_str()).as_str(),
            ),
            BootstrapError::CallSetDriver(t) => joined(
                "FailedToCallSetDriver: ",
                debug_quote(t.as_str()).as_str(),
            ),
        }
    }
}

/// The selector of the system contract's default constructor.
pub open spec fn system_constructor_selector() -> Seq<u8> {
    seq![0xedu8, 0x4bu8, 0x9du8, 0x1bu8]
}

/// The selector of the system contract's message that registers a driver.
pub open spec fn set_driver_selector() -> Seq<u8> {
    seq![0xaau8, 0x1eu8, 0x20u8, 0x30u8]
}

/// The input of a driver registration: the selector, the name as a byte
/// string with its length, and the encoded target.
pub open spec fn driver_input(name: Seq<u8>, target: Seq<u8>) -> Seq<u8> {
    set_driver_selector() + scale_bytes(name) + target
}

/// Builds the input of a driver registration for the name `name` and the
/// already encoded target `target`.
pub fn set_driver_input(name: &str, target: &[u8]) -> (r: Vec<u8>)
    requires
        name.spec_bytes().len() <= u32::MAX,
    ensures
        r@ == driver_input(name.spec_bytes(), target@),
{
    let mut input: Vec<u8> = Vec::new();
    input.push(0xaa);
    input.push(0x1e);
    input.push(0x20);
    input.push(0x30);
    assert(input@ =~= set_driver_selector());
    let encoded_name = encode_str(name);
    append_bytes(&mut input, encoded_name.as_slice());
    append_bytes(&mut input, target);
    input
}

/// The request that deploys the system contract from its stored code: the
/// default constructor without arguments, no value, all the gas there is,
/// an empty salt.
pub open spec fn system_instantiation(code_hash: Seq<u8>) -> InstantiateRequestView {
    InstantiateRequestView {
        origin: default_actor_bytes(),
        value: 0,
        gas_limit: Weight { ref_time: u64::MAX, proof_size: u64::MAX },
        storage_deposit_limit: None,
        code_hash,
        data: system_constructor_selector(),
        salt: Seq::empty(),
        debug: DebugInfo::UnsafeDebug,
        collect_events: CollectEvents::Skip,
    }
}

/// The call that registers the code `code_hash` as the driver `name` with
/// the system contract at `system`.
pub open spec fn driver_registration(system: Seq<u8>, name: Seq<u8>, code_hash: Seq<u8>)
    -> CallRequestView {
    call_request(
        default_actor_bytes(),
        system,
        0,
        u64::MAX,
        None,
        driver_input(name, code_hash),
        true,
    )
}

/// The name under which the first delegate is registered, as bytes.
pub open spec fn first_driver_name() -> Seq<u8> {
    "JsDelegate".spec_bytes()
}

/// The name under which the second delegate is registered, as bytes.
pub open spec fn second_driver_name() -> Seq<u8> {
    "JsDelegate2".spec_bytes()
}

/// What the contracts module answered during one bootstrap, step by step.
/// An entry for a step that was never reached holds no information.
pub struct BootstrapTrace {
    pub system_upload: Result<CodeUploadReturnValue, HostError>,
    pub system_instantiation: ContractInstantiateResult,
    pub qjs_upload: Result<CodeUploadReturnValue, HostError>,
    pub qjs_registration: ContractExecResult,
    pub qjs2_upload: Result<CodeUploadReturnValue, HostError>,
    pub qjs2_registration: ContractExecResult,
}

impl BootstrapTrace {
    /// How many module calls the bootstrap made: every step up to and
    /// including the first that failed.
    pub open spec fn steps(self) -> nat {
        if self.system_upload is Err {
            1
        } else if self.system_instantiation.result is Err {
            2
        } else if self.qjs_upload is Err {
            3
        } else if self.qjs_registration.result is Err {
            4
        } else if self.qjs2_upload is Err {
            5
        } else {
            6
        }
    }

    /// The failure that ended the bootstrap, if one did.
    pub open spec fn failure(self) -> Option<BootstrapErrorView> {
        if self.system_upload is Err {
            Some(BootstrapErrorView::UploadSystemCode(self.system_upload->Err_0.debug@))
        } else if self.system_instantiation.result is Err {
            Some(
                BootstrapErrorView::InstantiateSystem(
                    self.system_instantiation.result->Err_0.debug@,
                ),
            )
        } else if self.qjs_upload is Err {
            Some(BootstrapErrorView::UploadQjsCode(self.qjs_upload->Err_0.debug@))
        } else if self.qjs_registration.result is Err {
            Some(BootstrapErrorView::CallSetDriver(self.qjs_registration.result->Err_0.debug@))
        } else if self.qjs2_upload is Err {
            Some(BootstrapErrorView::UploadQjs2Code(self.qjs2_upload->Err_0.debug@))
        } else if self.qjs2_registration.result is Err {
            Some(BootstrapErrorView::CallSetDriver(self.qjs2_registration.result->Err_0.debug@))
        } else {
            None
        }
    }

    /// The address at which the system contract was created.
    pub open spec fn system_address(self) -> Seq<u8> {
        self.system_instantiation.result->Ok_0.account_id@
    }

    /// The cluster once the system contract is created: the settings reset
    /// and the contract registered.
    pub open spec fn registered(self, before: ClusterView) -> ClusterView {
        ClusterView { system_contract: Some(self.system_address()), ..before.reset() }
    }

    /// The cluster after the bootstrap: the settings reset, the system
    /// contract registered once it exists, and the JS runtime stored where
    /// nothing failed.
    pub open spec fn cluster(self, before: ClusterView, phatjs: Seq<u8>) -> ClusterView {
        if self.steps() < 3 {
            before.reset()
        } else if self.failure() is Some {
            self.registered(before)
        } else {
            ClusterView { js_runtime: phatjs, ..self.registered(before) }
        }
    }

    /// Whether each step that was reached got the request that the bootstrap
    /// prescribes and the answer recorded here, with the cluster in the
    /// state that the step is to see: reset from the first step on, and
    /// with the system contract registered once it is created.
    pub open spec fn admitted<U, I, C>(
        self,
        before: ClusterView,
        system: Seq<u8>,
        qjs: Seq<u8>,
        qjs2: Seq<u8>,
        upload: U,
        instantiate: I,
        call: C,
    ) -> bool where
        U: Fn(&ClusterConfig, UploadRequest) -> Result<CodeUploadReturnValue, HostError>,
        I: FnOnce(&ClusterConfig, InstantiateRequest) -> ContractInstantiateResult,
        C: Fn(&ClusterConfig, CallRequest) -> ContractExecResult,
     {
        &&& answered_on(
            upload,
            before.reset(),
            upload_request(default_actor_bytes(), system, true),
            self.system_upload,
        )
        &&& self.steps() >= 2 ==> answered_on(
            instantiate,
            before.reset(),
            system_instantiation(self.system_upload->Ok_0.code_hash@),
            self.system_instantiation,
        )
        &&& self.steps() >= 3 ==> answered_on(
            upload,
            self.registered(before),
            upload_request(default_actor_bytes(), qjs, false),
            self.qjs_upload,
        )
        &&& self.steps() >= 4 ==> answered_on(
            call,
            self.registered(before),
            driver_registration(
                self.system_address(),
                first_driver_name(),
                self.qjs_upload->Ok_0.code_hash@,
            ),
            self.qjs_registration,
        )
        &&& self.steps() >= 5 ==> answered_on(
            upload,
            self.registered(before),
            upload_request(default_actor_bytes(), qjs2, false),
            self.qjs2_upload,
        )
        &&& self.steps() >= 6 ==> answered_on(
            call,
            self.registered(before),
            driver_registration(
                self.system_address(),
                second_driver_name(),
                self.qjs2_upload->Ok_0.code_hash@,
            ),
            self.qjs2_registration,
        )
    }
}

/// Whether the functions that stand for the contracts module may be called
/// on every request that a bootstrap with these blobs can make.
pub open spec fn bootstrap_accepted<U, I, C>(
    system: Seq<u8>,
    qjs: Seq<u8>,
    qjs2: Seq<u8>,
    upload: U,
    instantiate: I,
    call: C,
) -> bool where
    U: Fn(&ClusterConfig, UploadRequest) -> Result<CodeUploadReturnValue, HostError>,
    I: FnOnce(&ClusterConfig, InstantiateRequest) -> ContractInstantiateResult,
    C: Fn(&ClusterConfig, CallRequest) -> ContractExecResult,
 {
    &&& forall|cluster: ClusterView| #[trigger]
        accepts_on(upload, cluster, upload_request(default_actor_bytes(), system, true))
    &&& forall|cluster: ClusterView| #[trigger]
        accepts_on(upload, cluster, upload_request(default_actor_bytes(), qjs, false))
    &&& forall|cluster: ClusterView| #[trigger]
        accepts_on(upload, cluster, upload_request(default_actor_bytes(), qjs2, false))
    &&& forall|cluster: ClusterView, hash: Seq<u8>| #[trigger]
        accepts_on(instantiate, cluster, system_instantiation(hash))
    &&& forall|cluster: ClusterView, system: Seq<u8>, name: Seq<u8>, hash: Seq<u8>| #[trigger]
        accepts_on(call, cluster, driver_registration(system, name, hash))
}

/// Whether `f` may be called on every cluster and request with these
/// contents.
pub open spec fn accepts_on<A: View, R, F: FnOnce(&ClusterConfig, A) -> R>(
    f: F,
    cluster: ClusterView,
    content: A::V,
) -> bool {
    forall|c: &ClusterConfig, a: A| c@ == cluster && a@ == content ==> f.requires((c, a))
}

/// Whether `r` is what `f` returned for some cluster and request with these
/// contents.
pub open spec fn answered_on<A: View, R, F: FnOnce(&ClusterConfig, A) -> R>(
    f: F,
    cluster: ClusterView,
    content: A::V,
    r: R,
) -> bool {
    exists|c: &ClusterConfig, a: A| c@ == cluster && a@ == content && f.ensures((c, a), r)
}

/// The content of a bootstrap's result.
pub open spec fn bootstrap_result(r: Result<(), BootstrapError>) -> Option<BootstrapErrorView> {
    match r {
        Ok(_) => None,
        Err(e) => Some(e@),
    }
}

/// The bytes of the name of the first driver are those of its ASCII text, and
/// likewise for the second.
proof fn lemma_driver_names()
    ensures
        first_driver_name().len() == 10,
        second_driver_name().len() == 11,
{
    broadcast use vstd::string::is_ascii_spec_bytes;

    reveal_strlit("JsDelegate");
    reveal_strlit("JsDelegate2");
    assert(vstd::string::is_ascii("JsDelegate"));
    assert(vstd::string::is_ascii("JsDelegate2"));
}

/// The request that stores `code` for the default actor.
fn storing(code: Vec<u8>, deterministic: bool) -> (r: UploadRequest)
    ensures
        r@ == upload_request(default_actor_bytes(), code@, deterministic),
{
    UploadRequest {
        origin: PinkRuntime::default_actor(),
        code,
        storage_deposit_limit: None,
        determinism: crate::runtime::determinism(deterministic),
    }
}

/// The request that deploys the system contract from the code `code_hash`.
fn deploying(code_hash: H256) -> (r: InstantiateRequest)
    ensures
        r@ == system_instantiation(code_hash@),
{
    let mut selector: Vec<u8> = Vec::new();
    selector.push(0xed);
    selector.push(0x4b);
    selector.push(0x9d);
    selector.push(0x1b);
    assert(selector@ =~= system_constructor_selector());
    InstantiateRequest {
        origin: PinkRuntime::default_actor(),
        value: 0,
        gas_limit: Weight::max(),
        storage_deposit_limit: None,
        code_hash,
        data: selector,
        salt: Vec::new(),
        debug: DebugInfo::UnsafeDebug,
        collect_events: CollectEvents::Skip,
    }
}

/// The call that registers the code `code_hash` as the driver `name` with
/// the system contract at `system`.
fn registering(system: AccountId, name: &str, code_hash: H256) -> (r: CallRequest)
    requires
        name.spec_bytes().len() <= u32::MAX,
    ensures
        r@ == driver_registration(system@, name.spec_bytes(), code_hash@),
{
    let target = code_hash.to_bytes();
    let input = set_driver_input(name, target.as_slice());
    CallRequest {
        origin: PinkRuntime::default_actor(),
        dest: system,
        value: 0,
        gas_limit: Weight::from_parts(crate::runtime::effective_gas_limit(u64::MAX, true), u64::MAX),
        storage_deposit_limit: None,
        data: input,
        debug: DebugInfo::Skip,
        collect_events: CollectEvents::Skip,
        determinism: crate::runtime::determinism(true),
    }
}

impl PinkRuntime {
    /// Bootstraps the cluster.
    ///
    /// The steps run in order and the first failure ends the run. The
    /// result and the cluster are those of the answers that the contracts
    /// module gave, as recorded in a trace.
    pub fn setup_cluster<U, I, C>(
        cluster: &mut ClusterConfig,
        artifacts: Artifacts,
        upload: &U,
        instantiate: I,
        call: &C,
    ) -> (r: Result<(), BootstrapError>) where
        U: Fn(&ClusterConfig, UploadRequest) -> Result<CodeUploadReturnValue, HostError>,
        I: FnOnce(&ClusterConfig, InstantiateRequest) -> ContractInstantiateResult,
        C: Fn(&ClusterConfig, CallRequest) -> ContractExecResult,

        requires
            bootstrap_accepted(
                artifacts.system@,
                artifacts.qjs@,
                artifacts.qjs2@,
                *upload,
                instantiate,
                *call,
            ),
        ensures
            exists|trace: BootstrapTrace|
                trace.admitted(
                    old(cluster)@,
                    artifacts.system@,
                    artifacts.qjs@,
                    artifacts.qjs2@,
                    *upload,
                    instantiate,
                    *call,
                ) && bootstrap_result(r) == trace.failure() && final(cluster)@ == trace.cluster(
                    old(cluster)@,
                    artifacts.phatjs@,
                ),
    {
        let ghost before = cluster@;
        let ghost blobs = (artifacts.system@, artifacts.qjs@, artifacts.qjs2@, artifacts.phatjs@);
        let Artifacts { system, qjs, qjs2, phatjs } = artifacts;
        cluster.reset();

        let request = storing(system, true);
        assert(accepts_on(*upload, cluster@, upload_request(default_actor_bytes(), blobs.0, true)));
        let stored = upload(&*cluster, request);
        let ghost system_upload = stored;
        let system_code_hash = match stored {
            Ok(v) => v.code_hash,
            Err(e) => {
                proof {
                    let trace = BootstrapTrace {
                        system_upload,
                        system_instantiation: arbitrary(),
                        qjs_upload: arbitrary(),
                        qjs_registration: arbitrary(),
                        qjs2_upload: arbitrary(),
                        qjs2_registration: arbitrary(),
                    };
                    assert(trace.admitted(before, blobs.0, blobs.1, blobs.2, *upload, instantiate, *call));
                    assert(cluster@ == trace.cluster(before, blobs.3));
                }
                return Err(BootstrapError::UploadSystemCode(e.debug));
            },
        };

        let request = deploying(system_code_hash);
        assert(accepts_on(instantiate, cluster@, system_instantiation(system_code_hash@)));
        let created = instantiate(&*cluster, request);
        let ghost system_instantiation = created;
        let system_address = match created.result {
            Ok(v) => v.account_id,
            Err(e) => {
                proof {
                    let trace = BootstrapTrace {
                        system_upload,
                        system_instantiation,
                        qjs_upload: arbitrary(),
                        qjs_registration: arbitrary(),
                        qjs2_upload: arbitrary(),
                        qjs2_registration: arbitrary(),
                    };
                    assert(trace.admitted(before, blobs.0, blobs.1, blobs.2, *upload, instantiate, *call));
                    assert(cluster@ == trace.cluster(before, blobs.3));
                }
                return Err(BootstrapError::InstantiateSystem(e.debug));
            },
        };
        cluster.set_system_contract(system_address);

        proof {
            lemma_driver_names();
        }
        let request = storing(qjs, false);
        assert(accepts_on(*upload, cluster@, upload_request(default_actor_bytes(), blobs.1, false)));
        let stored = upload(&*cluster, request);
        let ghost qjs_upload = stored;
        let qjs_code_hash = match stored {
            Ok(v) => v.code_hash,
            Err(e) => {
                proof {
                    let trace = BootstrapTrace {
                        system_upload,
                        system_instantiation,
                        qjs_upload,
                        qjs_registration: arbitrary(),
                        qjs2_upload: arbitrary(),
                        qjs2_registration: arbitrary(),
                    };
                    assert(trace.admitted(before, blobs.0, blobs.1, blobs.2, *upload, instantiate, *call));
                    assert(cluster@ == trace.cluster(before, blobs.3));
                }
                return Err(BootstrapError::UploadQjsCode(e.debug));
            },
        };
        let request = registering(system_address, "JsDelegate", qjs_code_hash);
        assert(accepts_on(
            *call,
            cluster@,
            driver_registration(system_address@, first_driver_name(), qjs_code_hash@),
        ));
        let registered = call(&*cluster, request);
        let ghost qjs_registration = registered;
        match registered.result {
            Ok(_) => {},
            Err(e) => {
                proof {
                    let trace = BootstrapTrace {
                        system_upload,
                        system_instantiation,
                        qjs_upload,
                        qjs_registration,
                        qjs2_upload: arbitrary(),
                        qjs2_registration: arbitrary(),
                    };
                    assert(trace.admitted(before, blobs.0, blobs.1, blobs.2, *upload, instantiate, *call));
                    assert(cluster@ == trace.cluster(before, blobs.3));
                }
                return Err(BootstrapError::CallSetDriver(e.debug));
            },
        }

        let request = storing(qjs2, false);
        assert(accepts_on(*upload, cluster@, upload_request(default_actor_bytes(), blobs.2, false)));
        let stored = upload(&*cluster, request);
        let ghost qjs2_upload = stored;
        let qjs2_code_hash = match stored {
            Ok(v) => v.code_hash,
            Err(e) => {
                proof {
                    let trace = BootstrapTrace {
                        system_upload,
                        system_instantiation,
                        qjs_upload,
                        qjs_registration,
                        qjs2_upload,
                        qjs2_registration: arbitrary(),
                    };
                    assert(trace.admitted(before, blobs.0, blobs.1, blobs.2, *upload, instantiate, *call));
                    assert(cluster@ == trace.cluster(before, blobs.3));
                }
                return Err(BootstrapError::UploadQjs2Code(e.debug));
            },
        };
        let request = registering(system_address, "JsDelegate2", qjs2_code_hash);
        assert(accepts_on(
            *call,
            cluster@,
            driver_registration(system_address@, second_driver_name(), qjs2_code_hash@),
        ));
        let registered = call(&*cluster, request);
        let ghost qjs2_registration = registered;
        let ghost trace = BootstrapTrace {
            system_upload,
            system_instantiation,
            qjs_upload,
            qjs_registration,
            qjs2_upload,
            qjs2_registration,
        };
        match registered.result {
            Ok(_) => {},
            Err(e) => {
                proof {
                    assert(trace.admitted(before, blobs.0, blobs.1, blobs.2, *upload, instantiate, *call));
                    assert(cluster@ == trace.cluster(before, blobs.3));
                }
                return Err(BootstrapError::CallSetDriver(e.debug));
            },
        }

        cluster.put_js_runtime(phatjs);
        proof {
            assert(trace.admitted(before, blobs.0, blobs.1, blobs.2, *upload, instantiate, *call));
            assert(cluster@ == trace.cluster(before, blobs.3));
        }
        Ok(())
    }

    /// Prepares the block at `height`, whose parent has the hash
    /// `parent_hash`.
    ///
    /// The first block bootstraps the cluster. Every other block needs no
    /// preparation: the cluster stays as it is and the contracts module is
    /// not called. The hash of the parent plays no part.
    pub fn initialize_block<U, I, C>(
        height: BlockNumber,
        parent_hash: H256,
        cluster: &mut ClusterConfig,
        artifacts: Artifacts,
        upload: &U,
        instantiate: I,
        call: &C,
    ) -> (r: Result<(), BootstrapError>) where
        U: Fn(&ClusterConfig, UploadRequest) -> Result<CodeUploadReturnValue, HostError>,
        I: FnOnce(&ClusterConfig, InstantiateRequest) -> ContractInstantiateResult,
        C: Fn(&ClusterConfig, CallRequest) -> ContractExecResult,

        requires
            height == 1 ==> bootstrap_accepted(
                artifacts.system@,
                artifacts.qjs@,
                artifacts.qjs2@,
                *upload,
                instantiate,
                *call,
            ),
        ensures
            height != 1 ==> r is Ok && final(cluster)@ == old(cluster)@,
            height == 1 ==> exists|trace: BootstrapTrace|
                trace.admitted(
                    old(cluster)@,
                    artifacts.system@,
                    artifacts.qjs@,
                    artifacts.qjs2@,
                    *upload,
                    instantiate,
                    *call,
                ) && bootstrap_result(r) == trace.failure() && final(cluster)@ == trace.cluster(
                    old(cluster)@,
                    artifacts.phatjs@,
                ),
    {
        if height != 1 {
            return Ok(());
        }
        Self::setup_cluster(cluster, artifacts, upload, instantiate, call)
    }
}

/// After a bootstrap in which nothing failed the system contract is
/// registered at the address where it was created, the JS runtime is the
/// one that was handed in, and identity, price, deposits and treasury are
/// zero. What else the cluster held is as before.
pub proof fn lemma_bootstrap_completes(trace: BootstrapTrace, before: ClusterView, phatjs: Seq<u8>)
    requires
        trace.failure() is None,
    ensures
        trace.steps() == 6,
        trace.cluster(before, phatjs).system_contract == Some(trace.system_address()),
        trace.cluster(before, phatjs).js_runtime == phatjs,
        trace.cluster(before, phatjs).cluster_id == crate::types::zero_bytes(),
        trace.cluster(before, phatjs).gas_price == 0,
        trace.cluster(before, phatjs).deposit_per_item == 0,
        trace.cluster(before, phatjs).deposit_per_byte == 0,
        trace.cluster(before, phatjs).treasury_account == crate::types::zero_bytes(),
        trace.cluster(before, phatjs).sidevm_codes == before.sidevm_codes,
        trace.cluster(before, phatjs).next_event_block_number == before.next_event_block_number,
        trace.cluster(before, phatjs).last_event_block_hash == before.last_event_block_hash,
{
}

/// A bootstrap that fails leaves the JS runtime as it was, and registers
/// the system contract exactly where the contract was created before the
/// failure.
pub proof fn lemma_bootstrap_failure(trace: BootstrapTrace, before: ClusterView, phatjs: Seq<u8>)
    requires
        trace.failure() is Some,
    ensures
        trace.cluster(before, phatjs).js_runtime == before.js_runtime,
        trace.steps() < 3 ==> trace.cluster(before, phatjs).system_contract
            == before.system_contract,
        trace.steps() >= 3 ==> trace.cluster(before, phatjs).system_contract == Some(
            trace.system_address(),
        ),
{
}

} // verus!
