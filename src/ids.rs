use vstd::prelude::*;

verus! {

/// Length of an identifier in hyphenated UUID form.
pub const ID_LEN: usize = 36;

/// Relies on uuid::Uuid::new_v4 for a random identifier and on its `Display`,
/// which writes the 36-character hyphenated form; of the value itself nothing
/// is stated. (`new_v4` panics only where the operating system cannot supply
/// random bytes.)
#[verifier::external_body]
pub(crate) fn fresh_id() -> (r: String)
    ensures
        r@.len() == ID_LEN,
{
    uuid::Uuid::new_v4().to_string()
}

} // verus!
