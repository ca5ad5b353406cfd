//! The command backend: what the host answers on behalf of a contract inside
//! a transaction.
//!
//! Every answer is determined by the call and the state of the chain. What
//! the live host would do is refused or blanked, and a change to the cache
//! becomes an event that takes effect when the transaction is committed.

use vstd::prelude::*;
use crate::chain_extension::{
    BatchHttpResult, DispatchError, DispatchErrorView, EcdhPublicKey, HttpRequest,
    HttpRequestError, HttpResponse, HttpResponseView, PinkError, SgxQuote, SigType,
    StorageQuotaExceeded,
};
use crate::cluster::ClusterConfig;
use crate::events::{
    deposit_pink_event, emitted, CacheOp, CacheOpView, EventLog, PinkEvent, PinkEventView,
};
use crate::extension::CallInCommand;
use crate::host::{accepts, answered};
use crate::js::{JsCode, JsValue, JsValueView};
use crate::query::code_info_key;
use crate::types::{zero_bytes, AccountId, Balance, H256};

verus! {

/// The response that every HTTP request gets inside a transaction.
pub open spec fn api_unavailable() -> HttpResponseView {
    HttpResponseView {
        status_code: 523,
        reason_phrase: "API Unavailable"@,
        headers: Seq::empty(),
        body: Seq::empty(),
    }
}

/// The text with which an evaluation inside a transaction is refused.
pub open spec fn js_eval_refusal() -> Seq<char> {
    "js_eval is not supported"@
}

impl CallInCommand {
    /// Refuses the request: the response says that the API is unavailable,
    /// and nothing is sent.
    pub fn http_request(&self, request: HttpRequest) -> (r: Result<HttpResponse, DispatchError>)
        ensures
            r matches Ok(response) && response@ == api_unavailable(),
    {
        let response = HttpResponse {
            status_code: 523,
            reason_phrase: "API Unavailable".to_string(),
            headers: Vec::new(),
            body: Vec::new(),
        };
        assert(response@.headers =~= Seq::empty());
        Ok(response)
    }

    /// Refuses the batch as not allowed; nothing is sent.
    pub fn batch_http_request(&self, requests: Vec<HttpRequest>, timeout_ms: u64) -> (r: Result<
        BatchHttpResult,
        DispatchError,
    >)
        ensures
            r matches Ok(Err(e)) && e == HttpRequestError::NotAllowed,
    {
        Ok(Err(HttpRequestError::NotAllowed))
    }

    /// Signs `message` with `key`.
    ///
    /// A signature of the scheme `Sr25519` differs from run to run, so
    /// inside a transaction it is blank: the result is empty and the signer
    /// is not consulted. Every other scheme is handed to `in_query`, which
    /// stands for the query backend.
    pub fn sign<S: FnOnce(SigType, Vec<u8>, Vec<u8>) -> Result<Vec<u8>, DispatchError>>(
        &self,
        sigtype: SigType,
        key: Vec<u8>,
        message: Vec<u8>,
        in_query: S,
    ) -> (r: Result<Vec<u8>, DispatchError>)
        requires
            sigtype != SigType::Sr25519 ==> in_query.requires((sigtype, key, message)),
        ensures
            sigtype == SigType::Sr25519 ==> (r matches Ok(signature) && signature@.len() == 0),
            sigtype != SigType::Sr25519 ==> in_query.ensures((sigtype, key, message), r),
    {
        match sigtype {
            SigType::Sr25519 => Ok(Vec::new()),
            _ => in_query(sigtype, key, message),
        }
    }

    /// Asks for `value` to be stored under `key`: files one event and
    /// reports success. The cache itself is not touched.
    pub fn cache_set(&self, log: &mut EventLog, key: Vec<u8>, value: Vec<u8>) -> (r: Result<
        Result<(), StorageQuotaExceeded>,
        DispatchError,
    >)
        requires
            key@.len() <= u32::MAX,
            value@.len() <= u32::MAX,
        ensures
            r matches Ok(Ok(_)),
            final(log)@ == old(log)@.push(
                emitted(
                    self.as_in_query.address@,
                    PinkEventView::CacheOp(CacheOpView::Put { key: key@, value: value@ }),
                ),
            ),
    {
        deposit_pink_event(
            log,
            self.as_in_query.address,
            PinkEvent::CacheOp(CacheOp::Put { key, value }),
        );
        Ok(Ok(()))
    }

    /// Asks for the entry under `key` to expire: files one event and
    /// reports success. The cache itself is not touched.
    pub fn cache_set_expiration(&self, log: &mut EventLog, key: Vec<u8>, expiration: u64) -> (r:
        Result<(), DispatchError>)
        requires
            key@.len() <= u32::MAX,
        ensures
            r is Ok,
            final(log)@ == old(log)@.push(
                emitted(
                    self.as_in_query.address@,
                    PinkEventView::CacheOp(CacheOpView::SetExpiration { key: key@, expiration }),
                ),
            ),
    {
        deposit_pink_event(
            log,
            self.as_in_query.address,
            PinkEvent::CacheOp(CacheOp::SetExpiration { key, expiration }),
        );
        Ok(())
    }

    /// Reads the cache: inside a transaction nothing is ever found.
    pub fn cache_get(&self, key: Vec<u8>) -> (r: Result<Option<Vec<u8>>, DispatchError>)
        ensures
            r matches Ok(None),
    {
        Ok(None)
    }

    /// Asks for the entry under `key` to be dropped: files one event and
    /// reports that nothing was there. The cache itself is not touched.
    pub fn cache_remove(&self, log: &mut EventLog, key: Vec<u8>) -> (r: Result<
        Option<Vec<u8>>,
        DispatchError,
    >)
        requires
            key@.len() <= u32::MAX,
        ensures
            r matches Ok(None),
            final(log)@ == old(log)@.push(
                emitted(
                    self.as_in_query.address@,
                    PinkEventView::CacheOp(CacheOpView::Remove { key: key@ }),
                ),
            ),
    {
        deposit_pink_event(
            log,
            self.as_in_query.address,
            PinkEvent::CacheOp(CacheOp::Remove { key }),
        );
        Ok(None)
    }

    /// Random bytes: inside a transaction there are none.
    pub fn getrandom(&self, length: u8) -> (r: Result<Vec<u8>, DispatchError>)
        ensures
            r matches Ok(bytes) && bytes@.len() == 0,
    {
        Ok(Vec::new())
    }

    /// Whether the call runs in a transaction: under this backend it always
    /// does.
    pub fn is_in_transaction(&self) -> (r: Result<bool, DispatchError>)
        ensures
            r == Ok::<bool, DispatchError>(true),
    {
        Ok(true)
    }

    /// The time of the host's clock: inside a transaction it stands at zero.
    pub fn untrusted_millis_since_unix_epoch(&self) -> (r: Result<u64, DispatchError>)
        ensures
            r == Ok::<u64, DispatchError>(0u64),
    {
        Ok(0)
    }

    /// The public key of the worker: all zero, since there is no enclave.
    pub fn worker_pubkey(&self) -> (r: Result<EcdhPublicKey, DispatchError>)
        ensures
            r matches Ok(key) && key@ == zero_bytes(),
    {
        self.as_in_query.worker_pubkey()
    }

    /// Refuses the evaluation: the value is an exception that says so, and
    /// the sidecar is not started.
    pub fn js_eval(&self, codes: Vec<JsCode>, args: Vec<String>) -> (r: Result<
        JsValue,
        DispatchError,
    >)
        ensures
            r matches Ok(value) && value@ == JsValueView::Exception(js_eval_refusal()),
    {
        Ok(JsValue::Exception("js_eval is not supported".to_string()))
    }

    /// The quote that attests the worker's enclave: inside a transaction
    /// there is none.
    pub fn worker_sgx_quote(&self) -> (r: Result<Option<SgxQuote>, DispatchError>)
        ensures
            r matches Ok(None),
    {
        Ok(None)
    }

    /// The address of the system contract, as under a query.
    pub fn system_contract_id(&self, cluster: &ClusterConfig) -> (r: Result<
        AccountId,
        DispatchError,
    >)
        ensures
            match r {
                Ok(address) => cluster@.system_contract == Some(address@),
                Err(e) => cluster@.system_contract is None && e@ == DispatchErrorView::Pink(
                    PinkError::SystemContractMissing,
                ),
            },
    {
        self.as_in_query.system_contract_id(cluster)
    }

    /// The total and the free balance of `account`, as under a query: for
    /// the system contract only.
    pub fn balance_of<B: FnOnce(AccountId) -> (Balance, Balance)>(
        &self,
        cluster: &ClusterConfig,
        account: AccountId,
        balances: B,
    ) -> (r: Result<(Balance, Balance), DispatchError>)
        requires
            self.as_in_query.is_system(cluster@) ==> balances.requires((account,)),
        ensures
            match r {
                Ok(found) => self.as_in_query.is_system(cluster@) && balances.ensures(
                    (account,),
                    found,
                ),
                Err(e) => !self.as_in_query.is_system(cluster@) && e@
                    == DispatchErrorView::BadOrigin,
            },
    {
        self.as_in_query.balance_of(cluster, account, balances)
    }

    /// Whether code with this hash is stored, as under a query.
    pub fn code_exists<S: FnOnce(Vec<u8>) -> bool>(
        &self,
        cluster: &ClusterConfig,
        code_hash: H256,
        sidevm: bool,
        storage_exists: S,
    ) -> (r: Result<bool, DispatchError>)
        requires
            !sidevm ==> accepts(storage_exists, code_info_key(code_hash@)),
        ensures
            r matches Ok(found) && if sidevm {
                found == cluster@.has_sidevm_code(code_hash@)
            } else {
                answered(storage_exists, code_info_key(code_hash@), found)
            },
    {
        self.as_in_query.code_exists(cluster, code_hash, sidevm, storage_exists)
    }
}

} // verus!
