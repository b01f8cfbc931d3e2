//! Owned Rust representation of illumos name-value lists (nvlists).
//!
//! An nvlist is an ordered list of name-value pairs. This library holds
//! the verified half of turning a C `nvlist_t` into owned Rust values:
//! the data-type dispatch, the decoding of what was read from C into
//! [`NvValue`]s, and look-up by name. Reading the C memory itself is done
//! by the thin FFI layer around it.

pub mod clone;
pub mod decode;
pub mod laws;
pub mod raw;
pub mod value;

pub use decode::{decode_nvlist, decode_value};
pub use raw::{read_matches, value_kind, RawNvList, RawPair, RawValue, ValueKind};
pub use value::{NvList, NvValue};
