//! Plain values shared by every part of the sandbox.

use vstd::prelude::*;
use vstd::std_specs::cmp::PartialEqSpecImpl;

verus! {

/// Amounts of the native currency.
pub type Balance = u128;

/// Heights of sandbox blocks.
pub type BlockNumber = u32;

/// Transaction counters of accounts.
pub type Nonce = u64;

/// The two ways a contract can be entered.
#[derive(Debug, Clone, Copy, PartialEq, Eq, Structural)]
pub enum ExecMode {
    /// Read-only: storage effects are discarded, live host services allowed.
    Query,
    /// Write-capable: every host answer must be deterministic.
    Transaction,
}

impl ExecMode {
    /// Whether this is the read-only mode.
    pub fn is_query(&self) -> (r: bool)
        ensures
            r == (*self == ExecMode::Query),
    {
        match self {
            ExecMode::Query => true,
            _ => false,
        }
    }
}

/// Thirty-two zero bytes.
pub open spec fn zero_bytes() -> Seq<u8> {
    Seq::new(32, |i: int| 0u8)
}

/// Whether two 32-byte values hold the same bytes.
fn same_bytes(a: &[u8; 32], b: &[u8; 32]) -> (r: bool)
    ensures
        r == (a@ == b@),
{
    let mut i: usize = 0;
    while i < 32
        invariant
            i <= 32,
            forall|j: int| 0 <= j < i ==> a@[j] == b@[j],
        decreases 32 - i,
    {
        if a[i] != b[i] {
            return false;
        }
        i += 1;
    }
    assert(a@ =~= b@);
    true
}

/// A 32-byte account address.
#[derive(Debug, Clone, Copy, Eq)]
pub struct AccountId(pub [u8; 32]);

impl View for AccountId {
    type V = Seq<u8>;

    open spec fn view(&self) -> Seq<u8> {
        self.0@
    }
}

impl AccountId {
    /// The address made of the given bytes.
    pub fn new(bytes: [u8; 32]) -> (r: AccountId)
        ensures
            r@ == bytes@,
    {
        AccountId(bytes)
    }

    /// The address whose bytes are all zero.
    pub fn zero() -> (r: AccountId)
        ensures
            r@ == zero_bytes(),
    {
        let r = AccountId([0u8; 32]);
        assert(r@ =~= zero_bytes());
        r
    }

    /// The bytes of the address.
    pub fn to_bytes(&self) -> (r: [u8; 32])
        ensures
            r@ == self@,
    {
        self.0
    }
}

impl PartialEq for AccountId {
    fn eq(&self, other: &AccountId) -> (r: bool) {
        same_bytes(&self.0, &other.0)
    }
}

impl PartialEqSpecImpl for AccountId {
    open spec fn obeys_eq_spec() -> bool {
        true
    }

    open spec fn eq_spec(&self, other: &AccountId) -> bool {
        self@ == other@
    }
}

/// A 32-byte digest: code hashes, block hashes, the cluster id.
#[derive(Debug, Clone, Copy, Eq)]
pub struct H256(pub [u8; 32]);

impl View for H256 {
    type V = Seq<u8>;

    open spec fn view(&self) -> Seq<u8> {
        self.0@
    }
}

impl H256 {
    /// The digest made of the given bytes.
    pub fn new(bytes: [u8; 32]) -> (r: H256)
        ensures
            r@ == bytes@,
    {
        H256(bytes)
    }

    /// The digest whose bytes are all zero.
    pub fn zero() -> (r: H256)
        ensures
            r@ == zero_bytes(),
    {
        let r = H256([0u8; 32]);
        assert(r@ =~= zero_bytes());
        r
    }

    /// The bytes of the digest.
    pub fn to_bytes(&self) -> (r: [u8; 32])
        ensures
            r@ == self@,
    {
        self.0
    }
}

impl PartialEq for H256 {
    fn eq(&self, other: &H256) -> (r: bool) {
        same_bytes(&self.0, &other.0)
    }
}

impl PartialEqSpecImpl for H256 {
    open spec fn obeys_eq_spec() -> bool {
        true
    }

    open spec fn eq_spec(&self, other: &H256) -> bool {
        self@ == other@
    }
}

/// Two addresses with the same bytes are the same address, and likewise for
/// digests.
pub proof fn lemma_same_bytes_same_value(a: AccountId, b: AccountId, h: H256, k: H256)
    ensures
        a@ == b@ <==> a == b,
        h@ == k@ <==> h == k,
        a@.len() == 32,
        h@.len() == 32,
{
    if a@ == b@ {
        assert(a.0@ =~= b.0@);
        assert(a.0 == b.0);
    }
    if h@ == k@ {
        assert(h.0@ =~= k.0@);
        assert(h.0 == k.0);
    }
}

} // verus!
