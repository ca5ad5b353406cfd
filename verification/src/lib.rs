//! Orchestration rules of an in-process sandbox for WebAssembly smart
//! contracts: the execution-mode discipline, the runtime entry points, the
//! cluster bootstrap, the host-call dispatcher with its two backends and the
//! driver of the JS sidecar.

pub mod bootstrap;
pub mod chain_extension;
pub mod cluster;
pub mod command;
pub mod decimal;
pub mod error;
pub mod events;
pub mod extension;
pub mod hashing;
pub mod hexadecimal;
pub mod host;
pub mod ink_helper;
pub mod js;
pub mod mode;
pub mod query;
pub mod runtime;
pub mod scale;
pub mod sidevm_runner;
pub mod text;
pub mod types;

pub use error::Error;
pub use types::{AccountId, Balance, BlockNumber, ExecMode, Nonce, H256};

use vstd::prelude::*;

verus! {

/// The major number of this package's version, as text.
pub const PKG_VERSION_MAJOR: &'static str = "0";

/// The minor number of this package's version, as text.
pub const PKG_VERSION_MINOR: &'static str = "1";

/// The runtime's version as `(major, minor)`, read from the package version.
pub fn version() -> (r: (u32, u32))
    ensures
        decimal::parsed_u32(PKG_VERSION_MAJOR@) == Some(r.0),
        decimal::parsed_u32(PKG_VERSION_MINOR@) == Some(r.1),
        r == (0u32, 1u32),
{
    proof {
        reveal_strlit("0");
        reveal_strlit("1");
        assert(decimal::numeral_digits("0"@) =~= seq!['0']);
        assert(decimal::numeral_digits("1"@) =~= seq!['1']);
        reveal_with_fuel(decimal::decimal_value, 2);
        assert(seq!['0'].drop_last() =~= Seq::<char>::empty());
        assert(seq!['1'].drop_last() =~= Seq::<char>::empty());
        assert(decimal::decimal_value(seq!['0']) == 0);
        assert(decimal::decimal_value(seq!['1']) == 1);
    }
    let major: u32 = match decimal::parse_u32(PKG_VERSION_MAJOR) {
        Some(v) => v,
        None => 0,
    };
    let minor: u32 = match decimal::parse_u32(PKG_VERSION_MINOR) {
        Some(v) => v,
        None => 0,
    };
    (major, minor)
}

} // verus!
