//! Helpers for the clients of the runtime: hashing code, deploying a
//! contract from its code, and registering drivers.

use vstd::prelude::*;
use vstd::slice::slice_to_vec;
use vstd::string::StringSliceAdditionalSpecFns;
use crate::bootstrap::{driver_input, set_driver_input};
use crate::cluster::ClusterConfig;
use crate::error::Error;
use crate::hashing::{blake2_256, blake2_256_digest};
use crate::host::{
    accepts, answered, CallRequest, CodeUploadReturnValue, ContractExecResult,
    ContractInstantiateResult, HostError, InstantiateRequest, UploadRequest,
};
use crate::runtime::{
    call_request, instantiate_outcome, instantiate_request, upload_request, PinkRuntime,
    DEFAULT_TX_GAS_LIMIT,
};
use crate::text::{debug_quote, debug_quoted, joined};
use crate::types::AccountId;

verus! {

/// The hash under which a code blob is stored: its BLAKE2b-256 digest.
pub fn code_hash(wasm: &[u8]) -> (r: [u8; 32])
    ensures
        r@ == blake2_256_digest(wasm@),
{
    blake2_256(wasm)
}

/// The content of a result with a plain error.
pub open spec fn account_or_text(r: Result<AccountId, Error>) -> Result<Seq<u8>, Seq<char>> {
    match r {
        Ok(a) => Ok(a@),
        Err(e) => Err(e@),
    }
}

/// The address of the contract that an instantiation created.
///
/// Fails with the module's rendering where the module failed, and with
/// `Contract instantiation reverted` where the constructor reverted.
pub fn into_contract(result: ContractInstantiateResult) -> (r: Result<AccountId, Error>)
    ensures
        account_or_text(r) == instantiate_outcome(result),
{
    match result.result {
        Ok(created) => {
            if created.result.did_revert() {
                Err(Error::msg("Contract instantiation reverted"))
            } else {
                Ok(created.account_id)
            }
        },
        Err(e) => Err(Error(e.debug)),
    }
}

/// What `bare_deploy` gives for the answers of the contracts module: the
/// failure of the upload, or the answer to the instantiation.
pub open spec fn deployed(
    stored: Result<CodeUploadReturnValue, HostError>,
    created: ContractInstantiateResult,
    r: Result<ContractInstantiateResult, Error>,
) -> bool {
    match stored {
        Ok(_) => r == Ok::<ContractInstantiateResult, Error>(created),
        Err(e) => r matches Err(text) && text@ == e.debug@,
    }
}

/// Stores `wasm` with the strict check and creates a contract from it, with
/// no value and the default gas of a transaction.
///
/// `upload` and `instantiate` stand for the contracts module. The code is
/// instantiated under the hash that the upload returned; where the upload
/// fails nothing is instantiated.
pub fn bare_deploy<U, I>(
    caller: AccountId,
    wasm: &[u8],
    data: Vec<u8>,
    salt: Vec<u8>,
    upload: U,
    instantiate: I,
) -> (r: Result<ContractInstantiateResult, Error>) where
    U: FnOnce(UploadRequest) -> Result<CodeUploadReturnValue, HostError>,
    I: FnOnce(InstantiateRequest) -> ContractInstantiateResult,

    requires
        accepts(upload, upload_request(caller@, wasm@, true)),
        forall|hash: Seq<u8>|
            accepts(
                instantiate,
                #[trigger] instantiate_request(
                    caller@,
                    0,
                    DEFAULT_TX_GAS_LIMIT,
                    None,
                    hash,
                    data@,
                    salt@,
                ),
            ),
    ensures
        exists|stored: Result<CodeUploadReturnValue, HostError>, created: ContractInstantiateResult|
            answered(upload, upload_request(caller@, wasm@, true), stored) && (stored matches Ok(
                code,
            ) ==> answered(
                instantiate,
                instantiate_request(
                    caller@,
                    0,
                    DEFAULT_TX_GAS_LIMIT,
                    None,
                    code.code_hash@,
                    data@,
                    salt@,
                ),
                created,
            )) && deployed(stored, created, r),
{
    let code = slice_to_vec(wasm);
    let request = UploadRequest {
        origin: caller,
        code,
        storage_deposit_limit: None,
        determinism: crate::runtime::determinism(true),
    };
    let ghost asked = request;
    let stored = upload(request);
    let ghost seen = stored;
    assert(answered(upload, upload_request(caller@, wasm@, true), seen)) by {
        assert(asked@ == upload_request(caller@, wasm@, true));
    }
    match stored {
        Ok(found) => {
            let created = PinkRuntime::bare_instantiate(
                caller,
                0,
                DEFAULT_TX_GAS_LIMIT,
                None,
                found.code_hash,
                data,
                salt,
                instantiate,
            );
            assert(deployed(seen, created, Ok(created)));
            Ok(created)
        },
        Err(e) => {
            let r = Err(Error(e.debug));
            assert(deployed(seen, arbitrary(), r));
            r
        },
    }
}

/// The message with which a failed driver registration is reported.
pub open spec fn set_driver_failure(rendering: Seq<char>) -> Seq<char> {
    "FailedToCallSetDriver: "@ + debug_quoted(rendering)
}

/// The text with which a registration without a system contract is
/// refused.
pub open spec fn no_system_contract_text() -> Seq<char> {
    "System contract not found"@
}

/// Registers the contract whose encoded address is `contract` as the driver
/// `name` with the system contract of the cluster.
///
/// The call goes out as a transaction of `caller` with all the gas there
/// is. Where the cluster has no system contract nothing is called and the
/// registration is refused. The cluster is only read.
pub fn set_driver<X: FnOnce(CallRequest) -> ContractExecResult>(
    cluster: &ClusterConfig,
    caller: AccountId,
    name: &str,
    contract: &[u8],
    contracts: X,
) -> (r: Result<(), Error>)
    requires
        name.spec_bytes().len() <= u32::MAX,
        cluster@.system_contract is Some ==> accepts(
            contracts,
            call_request(
                caller@,
                cluster@.system_contract->Some_0,
                0,
                u64::MAX,
                None,
                driver_input(name.spec_bytes(), contract@),
                true,
            ),
        ),
    ensures
        cluster@.system_contract is None ==> (r matches Err(e) && e@ == no_system_contract_text()),
        cluster@.system_contract is Some ==> exists|answer: ContractExecResult|
            answered(
                contracts,
                call_request(
                    caller@,
                    cluster@.system_contract->Some_0,
                    0,
                    u64::MAX,
                    None,
                    driver_input(name.spec_bytes(), contract@),
                    true,
                ),
                answer,
            ) && match r {
                Ok(_) => answer.result is Ok,
                Err(e) => answer.result matches Err(failure) && e@ == set_driver_failure(
                    failure.debug@,
                ),
            },
{
    let system_address = match cluster.system_contract() {
        Some(address) => address,
        None => {
            return Err(Error::msg("System contract not found"));
        },
    };
    let input_data = set_driver_input(name, contract);
    let answer = PinkRuntime::bare_call(
        caller,
        system_address,
        0,
        u64::MAX,
        None,
        input_data,
        true,
        contracts,
    );
    match answer.result {
        Ok(_) => Ok(()),
        Err(failure) => Err(
            Error(joined("FailedToCallSetDriver: ", debug_quote(failure.debug.as_str()).as_str())),
        ),
    }
}

} // verus!
