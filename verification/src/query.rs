//! The query backend: what the host answers on behalf of a contract while
//! nothing has to be deterministic.
//!
//! The services that only the live host can give (HTTP, signatures, the
//! cache, randomness, the clock) are not decided here. Here stand the calls
//! that depend on the cluster: who may ask, what is registered, and how an
//! evaluation of JavaScript is handed to the sidecar.

use vstd::prelude::*;
use vstd::slice::slice_to_vec;
use vstd::string::StringSliceAdditionalSpecFns;
use crate::chain_extension::{
    DispatchError, DispatchErrorView, EcdhPublicKey, PinkError, SgxQuote,
};
use crate::cluster::{ClusterConfig, ClusterView};
use crate::extension::CallInQuery;
use crate::hashing::{twox_128, twox_128_digest};
use crate::hexadecimal::{hex_encode, hex_lower};
use crate::host::{accepts, answered};
use crate::js::{JsCode, JsCodeView, JsValue, JsValueView};
use crate::scale::append_bytes;
use crate::sidevm_runner::{RunError, MAX_MEMORY_PAGES, TIMEOUT_SECS, VITAL_CAPACITY};
use crate::types::{zero_bytes, AccountId, Balance, H256};

verus! {

/// The storage key under which the contracts module keeps what it knows of
/// the code `code_hash`: the digests of the names `Contracts` and
/// `CodeInfoOf`, then the hash.
pub open spec fn code_info_key(code_hash: Seq<u8>) -> Seq<u8> {
    twox_128_digest("Contracts".spec_bytes()) + twox_128_digest("CodeInfoOf".spec_bytes())
        + code_hash
}

/// The storage key under which the contracts module keeps what it knows of
/// the code `code_hash`.
pub fn code_owner_key(code_hash: &H256) -> (r: Vec<u8>)
    ensures
        r@ == code_info_key(code_hash@),
{
    let mut key: Vec<u8> = Vec::new();
    let pallet = twox_128("Contracts".as_bytes());
    append_bytes(&mut key, pallet.as_slice());
    let item = twox_128("CodeInfoOf".as_bytes());
    append_bytes(&mut key, item.as_slice());
    let hash = code_hash.to_bytes();
    append_bytes(&mut key, hash.as_slice());
    key
}

/// Different codes have different keys: the key of a code names the code.
pub proof fn lemma_code_key_tells_codes_apart(first: Seq<u8>, second: Seq<u8>)
    ensures
        code_info_key(first) == code_info_key(second) <==> first == second,
{
    let prefix = twox_128_digest("Contracts".spec_bytes()) + twox_128_digest(
        "CodeInfoOf".spec_bytes(),
    );
    if code_info_key(first) == code_info_key(second) {
        assert(code_info_key(first) =~= prefix + first);
        assert(code_info_key(second) =~= prefix + second);
        assert((prefix + first).subrange(prefix.len() as int, (prefix + first).len() as int)
            =~= first);
        assert((prefix + second).subrange(prefix.len() as int, (prefix + second).len() as int)
            =~= second);
    }
}

/// Whether the contracts module holds the code `code_hash`: whether storage
/// has an entry under the key of that code. `storage_exists` stands for the
/// look into storage.
pub fn code_exists<S: FnOnce(Vec<u8>) -> bool>(code_hash: &H256, storage_exists: S) -> (r: bool)
    requires
        accepts(storage_exists, code_info_key(code_hash@)),
    ensures
        answered(storage_exists, code_info_key(code_hash@), r),
{
    let key = code_owner_key(code_hash);
    let ghost asked = key;
    let r = storage_exists(key);
    assert(asked@ == code_info_key(code_hash@) && storage_exists.ensures((asked,), r));
    r
}

/// The texts that a vector of strings holds.
pub open spec fn texts(strings: Seq<String>) -> Seq<Seq<char>> {
    Seq::new(strings.len(), |i: int| strings[i]@)
}

/// The contents of a vector of code pieces.
pub open spec fn code_views(codes: Seq<JsCode>) -> Seq<JsCodeView> {
    Seq::new(codes.len(), |i: int| codes[i]@)
}

/// The two arguments that hand one piece of code to the JS runtime: `-c`
/// and the text for source, `-b` and the hexadecimal text for bytecode.
pub open spec fn code_flags(code: JsCodeView) -> Seq<Seq<char>> {
    match code {
        JsCodeView::Source(text) => seq!["-c"@, text],
        JsCodeView::Bytecode(bytes) => seq!["-b"@, hex_lower(bytes)],
    }
}

/// The arguments that hand pieces of code to the JS runtime, in order.
pub open spec fn codes_flags(codes: Seq<JsCodeView>) -> Seq<Seq<char>>
    decreases codes.len(),
{
    if codes.len() == 0 {
        Seq::empty()
    } else {
        codes_flags(codes.drop_last()) + code_flags(codes.last())
    }
}

/// The command line of an evaluation: the program name, the pieces of code,
/// a separator, the arguments of the script.
pub open spec fn js_argv(codes: Seq<JsCodeView>, script_args: Seq<Seq<char>>) -> Seq<Seq<char>> {
    seq!["phatjs"@] + codes_flags(codes) + seq!["--"@] + script_args
}

/// Builds the command line of an evaluation.
pub fn js_command_line(codes: &Vec<JsCode>, script_args: &Vec<String>) -> (r: Vec<String>)
    ensures
        texts(r@) == js_argv(code_views(codes@), texts(script_args@)),
{
    let mut args: Vec<String> = Vec::new();
    args.push("phatjs".to_string());
    assert(texts(args@) =~= seq!["phatjs"@] + codes_flags(code_views(codes@).take(0))) by {
        assert(code_views(codes@).take(0) =~= Seq::<JsCodeView>::empty());
    }
    let mut i: usize = 0;
    while i < codes.len()
        invariant
            i <= codes@.len(),
            texts(args@) == seq!["phatjs"@] + codes_flags(code_views(codes@).take(i as int)),
        decreases codes@.len() - i,
    {
        let ghost before = texts(args@);
        let ghost done = code_views(codes@).take(i as int);
        let ghost next = code_views(codes@).take(i + 1);
        proof {
            assert(next.drop_last() =~= done);
            assert(next.last() == codes@[i as int]@);
        }
        match &codes[i] {
            JsCode::Bytecode(bytes) => {
                args.push("-b".to_string());
                args.push(hex_encode(bytes.as_slice()));
            },
            JsCode::Source(text) => {
                args.push("-c".to_string());
                args.push(text.clone());
            },
        }
        assert(texts(args@) =~= before + code_flags(codes@[i as int]@));
        assert(texts(args@) =~= seq!["phatjs"@] + codes_flags(next));
        i += 1;
    }
    assert(code_views(codes@).take(i as int) =~= code_views(codes@));
    args.push("--".to_string());
    let ghost head = texts(args@);
    let mut j: usize = 0;
    while j < script_args.len()
        invariant
            j <= script_args@.len(),
            head == seq!["phatjs"@] + codes_flags(code_views(codes@)) + seq!["--"@],
            texts(args@) == head + texts(script_args@).take(j as int),
        decreases script_args@.len() - j,
    {
        let ghost before = texts(args@);
        args.push(script_args[j].clone());
        assert(texts(args@) =~= before.push(script_args@[j as int]@));
        assert(texts(script_args@).take(j + 1) =~= texts(script_args@).take(j as int).push(
            script_args@[j as int]@,
        ));
        assert(texts(args@) =~= head + texts(script_args@).take(j + 1));
        j += 1;
    }
    assert(texts(script_args@).take(j as int) =~= texts(script_args@));
    args
}

/// What the sidecar is asked to do for one evaluation.
#[derive(Debug)]
pub struct SidevmJob {
    /// The gas that the instance may use between two calls into the host.
    pub vital_capacity: u64,
    /// The memory that the instance may use, in pages.
    pub max_memory_pages: u32,
    /// The time after which the evaluation is given up, in seconds.
    pub timeout_secs: u64,
    /// The program to run: the JS runtime.
    pub code: Vec<u8>,
    /// The command line of the program.
    pub args: Vec<String>,
}

/// The mathematical content of a [`SidevmJob`].
pub struct SidevmJobView {
    pub vital_capacity: u64,
    pub max_memory_pages: u32,
    pub timeout_secs: u64,
    pub code: Seq<u8>,
    pub args: Seq<Seq<char>>,
}

impl View for SidevmJob {
    type V = SidevmJobView;

    open spec fn view(&self) -> SidevmJobView {
        SidevmJobView {
            vital_capacity: self.vital_capacity,
            max_memory_pages: self.max_memory_pages,
            timeout_secs: self.timeout_secs,
            code: self.code@,
            args: texts(self.args@),
        }
    }
}

/// How the sidecar's work on a job ended.
#[derive(Debug)]
pub enum SidevmReport {
    /// The run came to an end in time, with a value or a failure.
    Finished(Result<JsValue, RunError>),
    /// The time was up before the run came to an end.
    TimedOut,
}

/// The text with which an evaluation that ran out of time is reported.
pub open spec fn timeout_text() -> Seq<char> {
    "Sidevm execution timeout"@
}

/// The job of evaluating `codes` with `script_args` on the runtime
/// `runtime_code`, under the fixed limits of the sidecar.
pub open spec fn js_eval_job(
    runtime_code: Seq<u8>,
    codes: Seq<JsCodeView>,
    script_args: Seq<Seq<char>>,
) -> SidevmJobView {
    SidevmJobView {
        vital_capacity: VITAL_CAPACITY,
        max_memory_pages: MAX_MEMORY_PAGES,
        timeout_secs: TIMEOUT_SECS,
        code: runtime_code,
        args: js_argv(codes, script_args),
    }
}

/// The value that an evaluation gives for a report of the sidecar: the
/// value of the run, or an exception that carries the failure of the run or
/// tells that the time was up.
pub open spec fn evaluated(report: SidevmReport) -> JsValueView {
    match report {
        SidevmReport::Finished(Ok(value)) => value@,
        SidevmReport::Finished(Err(e)) => JsValueView::Exception(e.rendering()),
        SidevmReport::TimedOut => JsValueView::Exception(timeout_text()),
    }
}

/// Turns a report of the sidecar into the value of the evaluation.
pub fn js_eval_value(report: SidevmReport) -> (r: JsValue)
    ensures
        r@ == evaluated(report),
{
    match report {
        SidevmReport::Finished(Ok(value)) => value,
        SidevmReport::Finished(Err(e)) => JsValue::Exception(e.render()),
        SidevmReport::TimedOut => JsValue::Exception("Sidevm execution timeout".to_string()),
    }
}

impl CallInQuery {
    /// The contract on whose behalf the backend answers.
    pub fn address(&self) -> (r: &AccountId)
        ensures
            *r == self.address,
    {
        &self.address
    }

    /// Whether the calling contract is the system contract of `cluster`.
    pub open spec fn is_system(&self, cluster: ClusterView) -> bool {
        cluster.system_contract == Some(self.address@)
    }

    /// Lets only the system contract pass.
    pub fn ensure_system(&self, cluster: &ClusterConfig) -> (r: Result<(), DispatchError>)
        ensures
            self.is_system(cluster@) ==> r is Ok,
            !self.is_system(cluster@) ==> (r matches Err(e) && e@ == DispatchErrorView::BadOrigin),
    {
        match cluster.system_contract() {
            Some(system) => {
                if system == self.address {
                    Ok(())
                } else {
                    Err(DispatchError::BadOrigin)
                }
            },
            None => Err(DispatchError::BadOrigin),
        }
    }

    /// Whether the call runs in a transaction: under this backend it never
    /// does.
    pub fn is_in_transaction(&self) -> (r: Result<bool, DispatchError>)
        ensures
            r == Ok::<bool, DispatchError>(false),
    {
        Ok(false)
    }

    /// The address of the system contract.
    pub fn system_contract_id(&self, cluster: &ClusterConfig) -> (r: Result<
        AccountId,
        DispatchError,
    >)
        ensures
            match r {
                Ok(address) => cluster@.system_contract == Some(address@),
                Err(e) => cluster@.system_contract is None && e@ == DispatchErrorView::Pink(
                    PinkError::SystemContractMissing,
                ),
            },
    {
        match cluster.system_contract() {
            Some(address) => Ok(address),
            None => Err(DispatchError::Pink(PinkError::SystemContractMissing)),
        }
    }

    /// The total and the free balance of `account`, for the system contract
    /// only. `balances` stands for the look into the balances; it is not
    /// consulted for any other caller.
    pub fn balance_of<B: FnOnce(AccountId) -> (Balance, Balance)>(
        &self,
        cluster: &ClusterConfig,
        account: AccountId,
        balances: B,
    ) -> (r: Result<(Balance, Balance), DispatchError>)
        requires
            self.is_system(cluster@) ==> balances.requires((account,)),
        ensures
            match r {
                Ok(found) => self.is_system(cluster@) && balances.ensures((account,), found),
                Err(e) => !self.is_system(cluster@) && e@ == DispatchErrorView::BadOrigin,
            },
    {
        match self.ensure_system(cluster) {
            Ok(_) => Ok(balances(account)),
            Err(e) => Err(e),
        }
    }

    /// The public key of the worker: all zero, since there is no enclave.
    pub fn worker_pubkey(&self) -> (r: Result<EcdhPublicKey, DispatchError>)
        ensures
            r matches Ok(key) && key@ == zero_bytes(),
    {
        let key: EcdhPublicKey = [0u8; 32];
        assert(key@ =~= zero_bytes());
        Ok(key)
    }

    /// Whether code with this hash is stored: among the sidecar programs of
    /// the cluster where `sidevm` is set, in the contracts module otherwise.
    /// `storage_exists` stands for the look into storage and is consulted in
    /// the second case only.
    pub fn code_exists<S: FnOnce(Vec<u8>) -> bool>(
        &self,
        cluster: &ClusterConfig,
        code_hash: H256,
        sidevm: bool,
        storage_exists: S,
    ) -> (r: Result<bool, DispatchError>)
        requires
            !sidevm ==> accepts(storage_exists, code_info_key(code_hash@)),
        ensures
            r matches Ok(found) && if sidevm {
                found == cluster@.has_sidevm_code(code_hash@)
            } else {
                answered(storage_exists, code_info_key(code_hash@), found)
            },
    {
        if sidevm {
            Ok(cluster.sidevm_code_exists(&code_hash))
        } else {
            Ok(code_exists(&code_hash, storage_exists))
        }
    }

    /// Imports the latest system code, for the system contract only. The
    /// sandbox upgrades nothing: the answer is always that nothing was
    /// imported.
    pub fn import_latest_system_code(&self, cluster: &ClusterConfig, payer: AccountId) -> (r:
        Result<Option<H256>, DispatchError>)
        ensures
            match r {
                Ok(imported) => self.is_system(cluster@) && imported is None,
                Err(e) => !self.is_system(cluster@) && e@ == DispatchErrorView::BadOrigin,
            },
    {
        match self.ensure_system(cluster) {
            Ok(_) => Ok(None),
            Err(e) => Err(e),
        }
    }

    /// The version of the runtime.
    pub fn runtime_version(&self) -> (r: Result<(u32, u32), DispatchError>)
        ensures
            r == Ok::<(u32, u32), DispatchError>((0u32, 1u32)),
    {
        Ok(crate::version())
    }

    /// Where the chain of event blocks stands.
    pub fn current_event_chain_head(&self, cluster: &ClusterConfig) -> (r: Result<
        (u64, H256),
        DispatchError,
    >)
        ensures
            r matches Ok(head) && head.0 == cluster@.next_event_block_number && head.1@
                == cluster@.last_event_block_hash,
    {
        Ok(cluster.event_chain_head())
    }

    /// The quote that attests the worker's enclave. `provider` stands for
    /// the source of quotes; where it fails there is no quote.
    pub fn worker_sgx_quote<E, P: FnOnce() -> Result<Option<SgxQuote>, E>>(&self, provider: P) -> (r:
        Result<Option<SgxQuote>, DispatchError>)
        requires
            provider.requires(()),
        ensures
            r matches Ok(quote) && exists|given: Result<Option<SgxQuote>, E>|
                provider.ensures((), given) && match given {
                    Ok(found) => quote == found,
                    Err(_) => quote is None,
                },
    {
        match provider() {
            Ok(found) => Ok(found),
            Err(_) => Ok(None),
        }
    }

    /// Evaluates JavaScript in the sidecar.
    ///
    /// The job is the stored JS runtime with the command line made of
    /// `codes` and `script_args`, under the fixed limits. `run` stands for
    /// the sidecar. Whatever it reports, the result is a value: a failure of
    /// the run and a run out of time become exceptions.
    pub fn js_eval<R: FnOnce(SidevmJob) -> SidevmReport>(
        &self,
        cluster: &ClusterConfig,
        codes: Vec<JsCode>,
        script_args: Vec<String>,
        run: R,
    ) -> (r: Result<JsValue, DispatchError>)
        requires
            accepts(
                run,
                js_eval_job(cluster@.js_runtime, code_views(codes@), texts(script_args@)),
            ),
        ensures
            r matches Ok(value) && exists|report: SidevmReport|
                answered(
                    run,
                    js_eval_job(cluster@.js_runtime, code_views(codes@), texts(script_args@)),
                    report,
                ) && value@ == evaluated(report),
    {
        let runtime_code = slice_to_vec(cluster.js_runtime.as_slice());
        let args = js_command_line(&codes, &script_args);
        let job = SidevmJob {
            vital_capacity: VITAL_CAPACITY,
            max_memory_pages: MAX_MEMORY_PAGES,
            timeout_secs: TIMEOUT_SECS,
            code: runtime_code,
            args,
        };
        let ghost asked = job;
        let report = run(job);
        let ghost seen = report;
        let value = js_eval_value(report);
        assert(answered(
            run,
            js_eval_job(cluster@.js_runtime, code_views(codes@), texts(script_args@)),
            seen,
        )) by {
            assert(asked@ == js_eval_job(
                cluster@.js_runtime,
                code_views(codes@),
                texts(script_args@),
            ));
        }
        Ok(value)
    }
}

} // verus!
