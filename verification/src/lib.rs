//! A heterogeneous associative container: a map from keys of a single type to
//! values of arbitrary, independently chosen types, with type-checked
//! retrieval at the call site.
//!
//! The value's static type is erased at insertion and recovered on lookup via
//! an explicit exact type check. [`Value`] is the type-erased holder of one
//! concrete value; [`AnyMap`] is the key-to-`Value` associative structure.

mod any_map;
mod value;

pub use any_map::AnyMap;
pub use any_map::lemma_empty_len;
pub use any_map::lemma_len_zero_is_empty;
pub use any_map::lemma_overwrite_preserves_len;
pub use any_map::lemma_remove_decrements_len;
pub use any_map::lemma_insert_overwrites;
pub use any_map::lemma_insert_then_found;
pub use any_map::lemma_remove_idempotent;
pub use value::Erased;
pub use value::Value;
