//! The runtime's entry points: storing code, creating contracts and calling
//! them.
//!
//! Each entry point turns its arguments into a request to the contracts
//! module, hands the request to the function that stands for that module, and
//! brings the result into the form that callers work with.

use vstd::prelude::*;
use crate::host::{
    accepts, answered, CallRequest, CallRequestView, CodeUploadReturnValue, CollectEvents,
    ContractExecResult, ContractInstantiateResult, DebugInfo, Determinism, HostError,
    InstantiateRequest, InstantiateRequestView, UploadRequest, UploadRequestView, Weight,
};
use crate::mode::{exec_in_mode, ModeScope};
use crate::types::{AccountId, Balance, ExecMode, H256};

verus! {

/// The gas given to a query whose caller names none.
pub const DEFAULT_QUERY_GAS_LIMIT: u64 = 50_000_000_000_000;

/// The gas given to a transaction whose caller names none.
pub const DEFAULT_TX_GAS_LIMIT: u64 = 2_500_000_000_000;

/// The balance that the default actor starts with.
pub const INITIAL_BALANCE: u128 = 1_000_000_000_000_000_000_000;

/// The text with which `instantiate` reports a constructor that reverted.
pub open spec fn reverted_text() -> Seq<char> {
    "Contract instantiation reverted"@
}

/// The gas limit in force: the caller's, or where that is zero the default
/// of the kind of call.
pub open spec fn gas_limit_or_default(gas_limit: u64, deterministic: bool) -> u64 {
    if gas_limit > 0 {
        gas_limit
    } else if deterministic {
        DEFAULT_TX_GAS_LIMIT
    } else {
        DEFAULT_QUERY_GAS_LIMIT
    }
}

/// The gas limit in force for a call.
pub fn effective_gas_limit(gas_limit: u64, deterministic: bool) -> (r: u64)
    ensures
        r == gas_limit_or_default(gas_limit, deterministic),
        r > 0,
{
    if gas_limit > 0 {
        gas_limit
    } else if deterministic {
        DEFAULT_TX_GAS_LIMIT
    } else {
        DEFAULT_QUERY_GAS_LIMIT
    }
}

/// What a determinism flag asks of the contracts module.
pub open spec fn determinism_of(deterministic: bool) -> Determinism {
    if deterministic {
        Determinism::Enforced
    } else {
        Determinism::Relaxed
    }
}

/// The check that code is held to, by flag.
pub fn determinism(deterministic: bool) -> (r: Determinism)
    ensures
        r == determinism_of(deterministic),
{
    if deterministic {
        Determinism::Enforced
    } else {
        Determinism::Relaxed
    }
}

/// The request that `upload_code` makes.
pub open spec fn upload_request(account: Seq<u8>, code: Seq<u8>, deterministic: bool)
    -> UploadRequestView {
    UploadRequestView {
        origin: account,
        code,
        storage_deposit_limit: None,
        determinism: determinism_of(deterministic),
    }
}

/// The request that `bare_instantiate` makes: the code by its hash, the gas
/// limit in force as computation time with an unbounded proof size, nothing
/// captured and nothing collected.
pub open spec fn instantiate_request(
    origin: Seq<u8>,
    value: Balance,
    gas_limit: u64,
    storage_deposit_limit: Option<Balance>,
    code_hash: Seq<u8>,
    data: Seq<u8>,
    salt: Seq<u8>,
) -> InstantiateRequestView {
    InstantiateRequestView {
        origin,
        value,
        gas_limit: Weight { ref_time: gas_limit_or_default(gas_limit, true), proof_size: u64::MAX },
        storage_deposit_limit,
        code_hash,
        data,
        salt,
        debug: DebugInfo::Skip,
        collect_events: CollectEvents::Skip,
    }
}

/// The request that `bare_call` makes.
pub open spec fn call_request(
    origin: Seq<u8>,
    dest: Seq<u8>,
    value: Balance,
    gas_limit: u64,
    storage_deposit_limit: Option<Balance>,
    data: Seq<u8>,
    deterministic: bool,
) -> CallRequestView {
    CallRequestView {
        origin,
        dest,
        value,
        gas_limit: Weight {
            ref_time: gas_limit_or_default(gas_limit, deterministic),
            proof_size: u64::MAX,
        },
        storage_deposit_limit,
        data,
        debug: DebugInfo::Skip,
        collect_events: CollectEvents::Skip,
        determinism: determinism_of(deterministic),
    }
}

/// What `upload_code` makes of the module's answer.
pub open spec fn upload_outcome(answer: Result<CodeUploadReturnValue, HostError>) -> Result<
    Seq<u8>,
    Seq<char>,
> {
    match answer {
        Ok(stored) => Ok(stored.code_hash@),
        Err(e) => Err(e.debug@),
    }
}

/// What `instantiate` makes of the module's answer: the new address where
/// the constructor ran and did not revert.
pub open spec fn instantiate_outcome(answer: ContractInstantiateResult) -> Result<
    Seq<u8>,
    Seq<char>,
> {
    match answer.result {
        Ok(created) => if created.result.reverted {
            Err(reverted_text())
        } else {
            Ok(created.account_id@)
        },
        Err(e) => Err(e.debug@),
    }
}

/// What `call` makes of the module's answer: the returned bytes where the
/// call ran to its end.
pub open spec fn call_outcome(answer: ContractExecResult) -> Result<Seq<u8>, Seq<char>> {
    match answer.result {
        Ok(returned) => Ok(returned.data@),
        Err(e) => Err(e.debug@),
    }
}

/// The content of a result of 32-byte values.
pub open spec fn hash_result(r: Result<H256, String>) -> Result<Seq<u8>, Seq<char>> {
    match r {
        Ok(h) => Ok(h@),
        Err(e) => Err(e@),
    }
}

/// The content of a result of addresses.
pub open spec fn account_result(r: Result<AccountId, String>) -> Result<Seq<u8>, Seq<char>> {
    match r {
        Ok(a) => Ok(a@),
        Err(e) => Err(e@),
    }
}

/// The content of a result of byte strings.
pub open spec fn bytes_result(r: Result<Vec<u8>, String>) -> Result<Seq<u8>, Seq<char>> {
    match r {
        Ok(b) => Ok(b@),
        Err(e) => Err(e@),
    }
}

/// The address of the default actor: thirty-two bytes of value one.
pub open spec fn default_actor_bytes() -> Seq<u8> {
    Seq::new(32, |i: int| 1u8)
}

/// The sandbox runtime.
#[derive(Debug, Clone, Copy, Default)]
pub struct PinkRuntime;

impl PinkRuntime {
    /// The account that bootstraps the cluster and that tests act as.
    pub fn default_actor() -> (r: AccountId)
        ensures
            r@ == default_actor_bytes(),
    {
        let r = AccountId([1u8; 32]);
        assert(r@ =~= default_actor_bytes());
        r
    }

    /// The balances that exist before the first block.
    pub fn initialize_storage() -> (r: Vec<(AccountId, Balance)>)
        ensures
            r@.len() == 1,
            r@[0].0@ == default_actor_bytes(),
            r@[0].1 == INITIAL_BALANCE,
    {
        let mut balances: Vec<(AccountId, Balance)> = Vec::new();
        balances.push((Self::default_actor(), INITIAL_BALANCE));
        balances
    }

    /// Runs `f` with `mode` as the current mode and restores what was
    /// current before.
    pub fn execute_in_mode<T, F: FnOnce(&mut ModeScope) -> T>(
        scope: &mut ModeScope,
        mode: ExecMode,
        f: F,
    ) -> (r: T)
        requires
            forall|s: &mut ModeScope| s@ == old(scope)@.push(mode) ==> f.requires((s,)),
        ensures
            final(scope)@ == old(scope)@,
            exists|s: &mut ModeScope| s@ == old(scope)@.push(mode) && f.ensures((s,), r),
    {
        exec_in_mode(scope, mode, f)
    }

    /// Stores a code blob and returns its hash.
    ///
    /// `deterministic` asks for the strict check of the code. A failure of
    /// the contracts module comes back as its rendering.
    pub fn upload_code<X>(account: AccountId, code: Vec<u8>, deterministic: bool, contracts: X) -> (r:
        Result<H256, String>) where X: FnOnce(UploadRequest) -> Result<CodeUploadReturnValue, HostError>
        requires
            accepts(contracts, upload_request(account@, code@, deterministic)),
        ensures
            exists|answer: Result<CodeUploadReturnValue, HostError>|
                answered(contracts, upload_request(account@, code@, deterministic), answer)
                    && hash_result(r) == upload_outcome(answer),
    {
        let request = UploadRequest {
            origin: account,
            code,
            storage_deposit_limit: None,
            determinism: determinism(deterministic),
        };
        let ghost content = request@;
        let answer = contracts(request);
        let ghost seen = answer;
        let r = match answer {
            Ok(stored) => Ok(stored.code_hash),
            Err(e) => Err(e.debug),
        };
        assert(answered(contracts, content, seen));
        assert(hash_result(r) == upload_outcome(seen));
        r
    }

    /// Creates a contract from stored code and returns the module's result
    /// as it is.
    pub fn bare_instantiate<X>(
        origin: AccountId,
        value: Balance,
        gas_limit: u64,
        storage_deposit_limit: Option<Balance>,
        code_hash: H256,
        data: Vec<u8>,
        salt: Vec<u8>,
        contracts: X,
    ) -> (r: ContractInstantiateResult) where
        X: FnOnce(InstantiateRequest) -> ContractInstantiateResult,

        requires
            accepts(
                contracts,
                instantiate_request(
                    origin@,
                    value,
                    gas_limit,
                    storage_deposit_limit,
                    code_hash@,
                    data@,
                    salt@,
                ),
            ),
        ensures
            answered(
                contracts,
                instantiate_request(
                    origin@,
                    value,
                    gas_limit,
                    storage_deposit_limit,
                    code_hash@,
                    data@,
                    salt@,
                ),
                r,
            ),
    {
        let request = InstantiateRequest {
            origin,
            value,
            gas_limit: Weight::from_parts(effective_gas_limit(gas_limit, true), u64::MAX),
            storage_deposit_limit,
            code_hash,
            data,
            salt,
            debug: DebugInfo::Skip,
            collect_events: CollectEvents::Skip,
        };
        let ghost content = request@;
        let r = contracts(request);
        assert(answered(contracts, content, r));
        r
    }

    /// Creates a contract from stored code and returns its address.
    ///
    /// Fails with the module's rendering where the module fails, and with
    /// `Contract instantiation reverted` where the constructor reverted.
    pub fn instantiate<X>(
        origin: AccountId,
        value: Balance,
        gas_limit: u64,
        storage_deposit_limit: Option<Balance>,
        code_hash: H256,
        data: Vec<u8>,
        salt: Vec<u8>,
        contracts: X,
    ) -> (r: Result<AccountId, String>) where
        X: FnOnce(InstantiateRequest) -> ContractInstantiateResult,

        requires
            accepts(
                contracts,
                instantiate_request(
                    origin@,
                    value,
                    gas_limit,
                    storage_deposit_limit,
                    code_hash@,
                    data@,
                    salt@,
                ),
            ),
        ensures
            exists|answer: ContractInstantiateResult|
                answered(
                    contracts,
                    instantiate_request(
                        origin@,
                        value,
                        gas_limit,
                        storage_deposit_limit,
                        code_hash@,
                        data@,
                        salt@,
                    ),
                    answer,
                ) && account_result(r) == instantiate_outcome(answer),
    {
        let answer = Self::bare_instantiate(
            origin,
            value,
            gas_limit,
            storage_deposit_limit,
            code_hash,
            data,
            salt,
            contracts,
        );
        let ghost seen = answer;
        let r = match answer.result {
            Ok(created) => {
                if created.result.did_revert() {
                    Err("Contract instantiation reverted".to_string())
                } else {
                    Ok(created.account_id)
                }
            },
            Err(e) => Err(e.debug),
        };
        assert(account_result(r) == instantiate_outcome(seen));
        r
    }

    /// Calls a contract and returns the module's result as it is.
    pub fn bare_call<X>(
        origin: AccountId,
        dest: AccountId,
        value: Balance,
        gas_limit: u64,
        storage_deposit_limit: Option<Balance>,
        data: Vec<u8>,
        deterministic: bool,
        contracts: X,
    ) -> (r: ContractExecResult) where X: FnOnce(CallRequest) -> ContractExecResult
        requires
            accepts(
                contracts,
                call_request(
                    origin@,
                    dest@,
                    value,
                    gas_limit,
                    storage_deposit_limit,
                    data@,
                    deterministic,
                ),
            ),
        ensures
            answered(
                contracts,
                call_request(
                    origin@,
                    dest@,
                    value,
                    gas_limit,
                    storage_deposit_limit,
                    data@,
                    deterministic,
                ),
                r,
            ),
    {
        let request = CallRequest {
            origin,
            dest,
            value,
            gas_limit: Weight::from_parts(effective_gas_limit(gas_limit, deterministic), u64::MAX),
            storage_deposit_limit,
            data,
            debug: DebugInfo::Skip,
            collect_events: CollectEvents::Skip,
            determinism: determinism(deterministic),
        };
        let ghost content = request@;
        let r = contracts(request);
        assert(answered(contracts, content, r));
        r
    }

    /// Calls a contract and returns the bytes that it returned.
    ///
    /// Fails with the module's rendering where the module fails.
    pub fn call<X>(
        origin: AccountId,
        dest: AccountId,
        value: Balance,
        gas_limit: u64,
        storage_deposit_limit: Option<Balance>,
        data: Vec<u8>,
        deterministic: bool,
        contracts: X,
    ) -> (r: Result<Vec<u8>, String>) where X: FnOnce(CallRequest) -> ContractExecResult
        requires
            accepts(
                contracts,
                call_request(
                    origin@,
                    dest@,
                    value,
                    gas_limit,
                    storage_deposit_limit,
                    data@,
                    deterministic,
                ),
            ),
        ensures
            exists|answer: ContractExecResult|
                answered(
                    contracts,
                    call_request(
                        origin@,
                        dest@,
                        value,
                        gas_limit,
                        storage_deposit_limit,
                        data@,
                        deterministic,
                    ),
                    answer,
                ) && bytes_result(r) == call_outcome(answer),
    {
        let answer = Self::bare_call(
            origin,
            dest,
            value,
            gas_limit,
            storage_deposit_limit,
            data,
            deterministic,
            contracts,
        );
        let ghost seen = answer;
        let r = match answer.result {
            Ok(returned) => Ok(returned.data),
            Err(e) => Err(e.debug),
        };
        assert(bytes_result(r) == call_outcome(seen));
        r
    }
}

/// `instantiate` gives what `bare_instantiate` gives, reduced to the
/// address: the address of the new contract where the constructor ran and
/// did not revert, the fixed text where it reverted, and the failure of the
/// contracts module where that failed.
pub proof fn lemma_instantiate_follows_bare_instantiate(answer: ContractInstantiateResult)
    ensures
        match answer.result {
            Ok(created) => if created.result.reverted {
                instantiate_outcome(answer) == Err::<Seq<u8>, Seq<char>>(reverted_text())
            } else {
                instantiate_outcome(answer) == Ok::<Seq<u8>, Seq<char>>(created.account_id@)
            },
            Err(e) => instantiate_outcome(answer) == Err::<Seq<u8>, Seq<char>>(e.debug@),
        },
{
}

/// A call that names no gas gets the default of its kind: that of a
/// transaction where it is deterministic, that of a query where it is not.
/// A call that names gas gets what it named. The proof size is never
/// bounded.
pub proof fn lemma_gas_of_a_call(
    origin: Seq<u8>,
    dest: Seq<u8>,
    value: Balance,
    gas_limit: u64,
    storage_deposit_limit: Option<Balance>,
    data: Seq<u8>,
    deterministic: bool,
)
    ensures
        ({
            let request = call_request(
                origin,
                dest,
                value,
                gas_limit,
                storage_deposit_limit,
                data,
                deterministic,
            );
            &&& request.gas_limit.proof_size == u64::MAX
            &&& gas_limit > 0 ==> request.gas_limit.ref_time == gas_limit
            &&& gas_limit == 0 && deterministic ==> request.gas_limit.ref_time
                == 2_500_000_000_000u64
            &&& gas_limit == 0 && !deterministic ==> request.gas_limit.ref_time
                == 50_000_000_000_000u64
        }),
{
}

} // verus!
