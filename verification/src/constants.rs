//! Field ceilings and seed tags shared by the record types.

use vstd::prelude::*;

verus! {

/// Longest accepted name, in bytes.
pub const MAX_NAME_SIZE: usize = 50;

/// Longest accepted token symbol, in bytes.
pub const MAX_SYMBOL_SIZE: usize = 10;

/// Longest accepted description, in bytes.
pub const MAX_DESCRIPTION_SIZE: usize = 200;

/// Longest accepted image URL, in bytes.
pub const MAX_IMAGE_URL_SIZE: usize = 100;

/// Longest accepted metadata key or value, in bytes.
pub const MAX_METADATA_KEY_VALUE_SIZE: usize = 15;

/// Longest accepted metadata URI, in bytes.
pub const MAX_URI_SIZE: usize = 100;

/// Longest accepted activity label, in bytes.
pub const MAX_LABEL_SIZE: usize = 50;

/// Longest accepted activity entry message, in bytes.
pub const MAX_ENTRY_MESSAGE_SIZE: usize = 200;

/// Longest accepted activity entry URL, in bytes.
pub const MAX_ENTRY_URL_SIZE: usize = 100;

/// Ceiling on the element count of any persisted vector.
pub const MAX_VECTOR_SIZE: u16 = 65535;

} // verus!
