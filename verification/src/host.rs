//! What the runtime hands to the contracts module and what it gets back.
//!
//! The contracts module itself lies outside this library. An entry point
//! builds a request, hands it to a function that stands for the module, and
//! works on the plain result that comes back.

use vstd::prelude::*;
use crate::types::{AccountId, Balance, H256};

verus! {

/// Whether code may use instructions whose result can differ between runs.
#[derive(Debug, Clone, Copy, PartialEq, Eq, Structural)]
pub enum Determinism {
    /// Only deterministic code is accepted.
    Enforced,
    /// Any code is accepted; what is not deterministic runs in queries only.
    Relaxed,
}

/// Whether the debug output of a contract is captured.
#[derive(Debug, Clone, Copy, PartialEq, Eq, Structural)]
pub enum DebugInfo {
    /// Nothing is captured.
    Skip,
    /// The debug buffer is captured.
    UnsafeDebug,
}

/// Whether the events of an execution are collected into its result.
#[derive(Debug, Clone, Copy, PartialEq, Eq, Structural)]
pub enum CollectEvents {
    /// Nothing is collected.
    Skip,
    /// The events are collected.
    UnsafeCollect,
}

/// A two-dimensional gas amount.
#[derive(Debug, Clone, Copy, PartialEq, Eq, Structural)]
pub struct Weight {
    /// Computation time.
    pub ref_time: u64,
    /// Size of the storage proof; this engine never bounds it.
    pub proof_size: u64,
}

impl Weight {
    /// The weight with the given parts.
    pub fn from_parts(ref_time: u64, proof_size: u64) -> (r: Weight)
        ensures
            r == (Weight { ref_time, proof_size }),
    {
        Weight { ref_time, proof_size }
    }

    /// The largest weight.
    pub fn max() -> (r: Weight)
        ensures
            r == (Weight { ref_time: u64::MAX, proof_size: u64::MAX }),
    {
        Weight { ref_time: u64::MAX, proof_size: u64::MAX }
    }
}

/// A failure of the contracts module, as the text of its debug rendering.
#[derive(Debug)]
pub struct HostError {
    /// The rendering.
    pub debug: String,
}

/// A request to store a code blob.
#[derive(Debug)]
pub struct UploadRequest {
    /// Who uploads and pays the deposit.
    pub origin: AccountId,
    /// The code.
    pub code: Vec<u8>,
    /// The most that may be taken as deposit.
    pub storage_deposit_limit: Option<Balance>,
    /// What the code is checked against.
    pub determinism: Determinism,
}

/// The mathematical content of an [`UploadRequest`].
pub struct UploadRequestView {
    pub origin: Seq<u8>,
    pub code: Seq<u8>,
    pub storage_deposit_limit: Option<Balance>,
    pub determinism: Determinism,
}

impl View for UploadRequest {
    type V = UploadRequestView;

    open spec fn view(&self) -> UploadRequestView {
        UploadRequestView {
            origin: self.origin@,
            code: self.code@,
            storage_deposit_limit: self.storage_deposit_limit,
            determinism: self.determinism,
        }
    }
}

/// A request to create a contract from code that is already stored.
#[derive(Debug)]
pub struct InstantiateRequest {
    /// Who deploys.
    pub origin: AccountId,
    /// The balance given to the new contract.
    pub value: Balance,
    /// The gas that the constructor may use.
    pub gas_limit: Weight,
    /// The most that may be taken as deposit.
    pub storage_deposit_limit: Option<Balance>,
    /// The hash of the stored code.
    pub code_hash: H256,
    /// Selector and arguments of the constructor.
    pub data: Vec<u8>,
    /// The salt of the address derivation.
    pub salt: Vec<u8>,
    /// Debug capture.
    pub debug: DebugInfo,
    /// Event collection.
    pub collect_events: CollectEvents,
}

/// The mathematical content of an [`InstantiateRequest`].
pub struct InstantiateRequestView {
    pub origin: Seq<u8>,
    pub value: Balance,
    pub gas_limit: Weight,
    pub storage_deposit_limit: Option<Balance>,
    pub code_hash: Seq<u8>,
    pub data: Seq<u8>,
    pub salt: Seq<u8>,
    pub debug: DebugInfo,
    pub collect_events: CollectEvents,
}

impl View for InstantiateRequest {
    type V = InstantiateRequestView;

    open spec fn view(&self) -> InstantiateRequestView {
        InstantiateRequestView {
            origin: self.origin@,
            value: self.value,
            gas_limit: self.gas_limit,
            storage_deposit_limit: self.storage_deposit_limit,
            code_hash: self.code_hash@,
            data: self.data@,
            salt: self.salt@,
            debug: self.debug,
            collect_events: self.collect_events,
        }
    }
}

/// A request to call a contract.
#[derive(Debug)]
pub struct CallRequest {
    /// Who calls.
    pub origin: AccountId,
    /// The contract that is called.
    pub dest: AccountId,
    /// The balance sent along.
    pub value: Balance,
    /// The gas that the call may use.
    pub gas_limit: Weight,
    /// The most that may be taken as deposit.
    pub storage_deposit_limit: Option<Balance>,
    /// Selector and arguments of the message.
    pub data: Vec<u8>,
    /// Debug capture.
    pub debug: DebugInfo,
    /// Event collection.
    pub collect_events: CollectEvents,
    /// Which instructions the callee may use.
    pub determinism: Determinism,
}

/// The mathematical content of a [`CallRequest`].
pub struct CallRequestView {
    pub origin: Seq<u8>,
    pub dest: Seq<u8>,
    pub value: Balance,
    pub gas_limit: Weight,
    pub storage_deposit_limit: Option<Balance>,
    pub data: Seq<u8>,
    pub debug: DebugInfo,
    pub collect_events: CollectEvents,
    pub determinism: Determinism,
}

impl View for CallRequest {
    type V = CallRequestView;

    open spec fn view(&self) -> CallRequestView {
        CallRequestView {
            origin: self.origin@,
            dest: self.dest@,
            value: self.value,
            gas_limit: self.gas_limit,
            storage_deposit_limit: self.storage_deposit_limit,
            data: self.data@,
            debug: self.debug,
            collect_events: self.collect_events,
            determinism: self.determinism,
        }
    }
}

/// What storing a code blob returns.
#[derive(Debug, Clone, Copy)]
pub struct CodeUploadReturnValue {
    /// The hash under which the code is stored.
    pub code_hash: H256,
    /// The deposit that was taken.
    pub deposit: Balance,
}

/// What a contract returned from an execution that ran to its end.
#[derive(Debug)]
pub struct ExecReturnValue {
    /// Whether the contract asked for its changes to be undone.
    pub reverted: bool,
    /// The bytes that it returned.
    pub data: Vec<u8>,
}

impl ExecReturnValue {
    /// Whether the contract reverted.
    pub fn did_revert(&self) -> (r: bool)
        ensures
            r == self.reverted,
    {
        self.reverted
    }
}

/// What a constructor returned, with the address of the new contract.
#[derive(Debug)]
pub struct InstantiateReturnValue {
    /// What the constructor returned.
    pub result: ExecReturnValue,
    /// The address of the new contract.
    pub account_id: AccountId,
}

/// The result of a call: what the contract returned, or why the call could
/// not run to its end.
#[derive(Debug)]
pub struct ContractExecResult {
    /// The outcome.
    pub result: Result<ExecReturnValue, HostError>,
}

/// The result of an instantiation.
#[derive(Debug)]
pub struct ContractInstantiateResult {
    /// The outcome.
    pub result: Result<InstantiateReturnValue, HostError>,
}

/// Whether `f` may be called on every value whose content is `content`.
pub open spec fn accepts<A: View, R, F: FnOnce(A) -> R>(f: F, content: A::V) -> bool {
    forall|a: A| a@ == content ==> f.requires((a,))
}

/// Whether `r` is what `f` returned for some value whose content is
/// `content`.
pub open spec fn answered<A: View, R, F: FnOnce(A) -> R>(f: F, content: A::V, r: R) -> bool {
    exists|a: A| a@ == content && f.ensures((a,), r)
}

} // verus!
