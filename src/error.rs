use vstd::prelude::*;

verus! {

/// Failures surfaced by the grid model.
#[derive(Debug, Clone, Copy, PartialEq, Eq, Structural)]
pub enum GridError {
    /// A changeset names a field, row or block that the aggregate does not hold.
    NotFound,
    /// A field-type tag outside the known set.
    InvalidTag,
}

} // verus!
