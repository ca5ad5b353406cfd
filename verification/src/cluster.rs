//! The configuration of the one cluster that the sandbox runs.

use vstd::prelude::*;
use crate::types::{zero_bytes, AccountId, Balance, H256};

verus! {

/// The settings and registrations of the cluster.
#[derive(Debug)]
pub struct ClusterConfig {
    /// The identity of the cluster.
    pub cluster_id: H256,
    /// The price of one unit of gas.
    pub gas_price: Balance,
    /// The deposit taken for each storage item.
    pub deposit_per_item: Balance,
    /// The deposit taken for each byte of storage.
    pub deposit_per_byte: Balance,
    /// The account that collects fees.
    pub treasury_account: AccountId,
    /// The address of the system contract, once it is deployed.
    pub system_contract: Option<AccountId>,
    /// The hashes of the sidecar programs that are stored.
    pub sidevm_codes: Vec<H256>,
    /// The program that evaluates JavaScript.
    pub js_runtime: Vec<u8>,
    /// The number of the next block of events.
    pub next_event_block_number: u64,
    /// The hash of the last block of events.
    pub last_event_block_hash: H256,
}

/// The mathematical content of a [`ClusterConfig`].
pub struct ClusterView {
    pub cluster_id: Seq<u8>,
    pub gas_price: Balance,
    pub deposit_per_item: Balance,
    pub deposit_per_byte: Balance,
    pub treasury_account: Seq<u8>,
    pub system_contract: Option<Seq<u8>>,
    pub sidevm_codes: Seq<Seq<u8>>,
    pub js_runtime: Seq<u8>,
    pub next_event_block_number: u64,
    pub last_event_block_hash: Seq<u8>,
}

impl ClusterView {
    /// This configuration with identity, price, deposits and treasury at
    /// zero; the registrations stay.
    pub open spec fn reset(self) -> ClusterView {
        ClusterView {
            cluster_id: zero_bytes(),
            gas_price: 0,
            deposit_per_item: 0,
            deposit_per_byte: 0,
            treasury_account: zero_bytes(),
            ..self
        }
    }

    /// Whether a sidecar program with this hash is stored.
    pub open spec fn has_sidevm_code(self, hash: Seq<u8>) -> bool {
        exists|i: int| 0 <= i < self.sidevm_codes.len() && self.sidevm_codes[i] == hash
    }
}

impl View for ClusterConfig {
    type V = ClusterView;

    open spec fn view(&self) -> ClusterView {
        ClusterView {
            cluster_id: self.cluster_id@,
            gas_price: self.gas_price,
            deposit_per_item: self.deposit_per_item,
            deposit_per_byte: self.deposit_per_byte,
            treasury_account: self.treasury_account@,
            system_contract: match self.system_contract {
                Some(a) => Some(a@),
                None => None,
            },
            sidevm_codes: Seq::new(self.sidevm_codes@.len(), |i: int| self.sidevm_codes@[i]@),
            js_runtime: self.js_runtime@,
            next_event_block_number: self.next_event_block_number,
            last_event_block_hash: self.last_event_block_hash@,
        }
    }
}

impl ClusterConfig {
    /// A cluster before its first block: everything zero, nothing registered.
    pub fn new() -> (r: ClusterConfig)
        ensures
            r@ == (ClusterView {
                cluster_id: zero_bytes(),
                gas_price: 0,
                deposit_per_item: 0,
                deposit_per_byte: 0,
                treasury_account: zero_bytes(),
                system_contract: None,
                sidevm_codes: Seq::empty(),
                js_runtime: Seq::empty(),
                next_event_block_number: 0,
                last_event_block_hash: zero_bytes(),
            }),
    {
        let r = ClusterConfig {
            cluster_id: H256::zero(),
            gas_price: 0,
            deposit_per_item: 0,
            deposit_per_byte: 0,
            treasury_account: AccountId::zero(),
            system_contract: None,
            sidevm_codes: Vec::new(),
            js_runtime: Vec::new(),
            next_event_block_number: 0,
            last_event_block_hash: H256::zero(),
        };
        assert(r@.sidevm_codes =~= Seq::empty());
        r
    }

    /// Sets identity, price, deposits and treasury to zero.
    pub fn reset(&mut self)
        ensures
            final(self)@ == old(self)@.reset(),
    {
        self.cluster_id = H256::zero();
        self.gas_price = 0;
        self.deposit_per_item = 0;
        self.deposit_per_byte = 0;
        self.treasury_account = AccountId::zero();
    }

    /// Registers the system contract.
    pub fn set_system_contract(&mut self, address: AccountId)
        ensures
            final(self)@ == (ClusterView { system_contract: Some(address@), ..old(self)@ }),
    {
        self.system_contract = Some(address);
    }

    /// The address of the system contract, if it is registered.
    pub fn system_contract(&self) -> (r: Option<AccountId>)
        ensures
            r is Some == self@.system_contract is Some,
            r matches Some(a) ==> self@.system_contract == Some(a@),
    {
        self.system_contract
    }

    /// Stores the program that evaluates JavaScript, in place of the one held.
    pub fn put_js_runtime(&mut self, code: Vec<u8>)
        ensures
            final(self)@ == (ClusterView { js_runtime: code@, ..old(self)@ }),
    {
        self.js_runtime = code;
    }

    /// Whether a sidecar program with this hash is stored.
    pub fn sidevm_code_exists(&self, hash: &H256) -> (r: bool)
        ensures
            r == self@.has_sidevm_code(hash@),
    {
        let mut i: usize = 0;
        while i < self.sidevm_codes.len()
            invariant
                i <= self.sidevm_codes@.len(),
                forall|j: int| 0 <= j < i ==> self@.sidevm_codes[j] != hash@,
            decreases self.sidevm_codes@.len() - i,
        {
            if self.sidevm_codes[i] == *hash {
                assert(self@.sidevm_codes[i as int] == hash@);
                return true;
            }
            i += 1;
        }
        false
    }

    /// Where the chain of event blocks stands: the number of the next block
    /// and the hash of the last.
    pub fn event_chain_head(&self) -> (r: (u64, H256))
        ensures
            r.0 == self@.next_event_block_number,
            r.1@ == self@.last_event_block_hash,
    {
        (self.next_event_block_number, self.last_event_block_hash)
    }
}

} // verus!
