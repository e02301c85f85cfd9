//! Metadata and mutation protocol of a block-partitioned grid: fields, blocks,
//! rows and cells, the changesets that patch them, and a type-tagged value
//! envelope for cell payloads.
use vstd::prelude::*;

pub mod block;
pub mod context;
pub mod envelope;
pub mod error;
pub mod field;
pub mod field_type;
pub mod grid;
pub mod ids;
pub mod row;

verus! {

/// Height given to a freshly created row.
pub const DEFAULT_ROW_HEIGHT: i32 = 36;

/// Width given to a freshly created field.
pub const DEFAULT_FIELD_WIDTH: i32 = 150;

} // verus!
