use vstd::prelude::*;

use crate::block::patched;
use crate::field_type::FieldType;
use crate::ids::{fresh_id, ID_LEN};
use crate::DEFAULT_FIELD_WIDTH;

verus! {

/// A column of the grid: its type and display attributes, with a type-specific
/// options blob that this layer carries without reading.
#[derive(Debug, Clone, PartialEq, Eq)]
pub struct FieldMeta {
    pub id: String,
    pub name: String,
    pub desc: String,
    pub field_type: FieldType,
    pub frozen: bool,
    pub visibility: bool,
    pub width: i32,
    pub type_options: String,
}

/// A partial update of one field; absent attributes are left as they are.
#[derive(Debug, Clone)]
pub struct FieldChangeset {
    pub field_id: String,
    pub name: Option<String>,
    pub desc: Option<String>,
    pub field_type: Option<FieldType>,
    pub frozen: Option<bool>,
    pub visibility: Option<bool>,
    pub width: Option<i32>,
    pub type_options: Option<String>,
}

/// The text of an optional string attribute after a patch.
pub open spec fn patched_text(current: Seq<char>, update: Option<String>) -> Seq<char> {
    match update {
        Some(v) => v@,
        None => current,
    }
}

/// `after` is `before` with the changeset's present attributes applied.
pub open spec fn field_patched(before: FieldMeta, after: FieldMeta, changeset: FieldChangeset) -> bool {
    &&& after.id@ == before.id@
    &&& after.name@ == patched_text(before.name@, changeset.name)
    &&& after.desc@ == patched_text(before.desc@, changeset.desc)
    &&& after.field_type == patched(before.field_type, changeset.field_type)
    &&& after.frozen == patched(before.frozen, changeset.frozen)
    &&& after.visibility == patched(before.visibility, changeset.visibility)
    &&& after.width == patched(before.width, changeset.width)
    &&& after.type_options@ == patched_text(before.type_options@, changeset.type_options)
}

fn copy_if_some(target: &mut String, update: &Option<String>)
    ensures
        final(target)@ == patched_text(old(target)@, *update),
{
    if let Some(v) = update {
        *target = v.clone();
    }
}

impl FieldMeta {
    /// A visible, unfrozen field of default width, with a fresh identifier and
    /// empty type options.
    pub fn new(name: &str, desc: &str, field_type: FieldType) -> (r: FieldMeta)
        ensures
            r.id@.len() == ID_LEN,
            r.name@ == name@,
            r.desc@ == desc@,
            r.field_type == field_type,
            !r.frozen,
            r.visibility,
            r.width == DEFAULT_FIELD_WIDTH,
            r.type_options@.len() == 0,
    {
        FieldMeta {
            id: fresh_id(),
            name: name.to_owned(),
            desc: desc.to_owned(),
            field_type,
            frozen: false,
            visibility: true,
            width: DEFAULT_FIELD_WIDTH,
            type_options: String::new(),
        }
    }

    /// Applies the attributes that the changeset carries; the identifier stays.
    pub fn apply_changeset(&mut self, changeset: &FieldChangeset)
        ensures
            field_patched(*old(self), *final(self), *changeset),
    {
        copy_if_some(&mut self.name, &changeset.name);
        copy_if_some(&mut self.desc, &changeset.desc);
        if let Some(t) = changeset.field_type {
            self.field_type = t;
        }
        if let Some(f) = changeset.frozen {
            self.frozen = f;
        }
        if let Some(v) = changeset.visibility {
            self.visibility = v;
        }
        if let Some(w) = changeset.width {
            self.width = w;
        }
        copy_if_some(&mut self.type_options, &changeset.type_options);
    }
}

/// A changeset that carries only a width changes the width and nothing else.
pub proof fn lemma_width_only_changeset(before: FieldMeta, after: FieldMeta, changeset: FieldChangeset)
    requires
        field_patched(before, after, changeset),
        changeset.name is None,
        changeset.desc is None,
        changeset.field_type is None,
        changeset.frozen is None,
        changeset.visibility is None,
        changeset.type_options is None,
        changeset.width is Some,
    ensures
        after.width == changeset.width->0,
        after.id@ == before.id@,
        after.name@ == before.name@,
        after.desc@ == before.desc@,
        after.field_type == before.field_type,
        after.frozen == before.frozen,
        after.visibility == before.visibility,
        after.type_options@ == before.type_options@,
{
}

} // verus!
