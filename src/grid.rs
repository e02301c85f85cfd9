use vstd::prelude::*;

use crate::block::{patched, GridBlockMeta, GridBlockMetaChangeset};
use crate::error::GridError;
use crate::field::{field_patched, FieldChangeset, FieldMeta};
use crate::row::{RowMeta, RowMetaChangeset};

verus! {

/// The root of a grid: its fields in display order and its blocks in row
/// order.
#[derive(Debug, Clone)]
pub struct GridMeta {
    pub grid_id: String,
    pub fields: Vec<FieldMeta>,
    pub block_metas: Vec<GridBlockMeta>,
}

/// The rows that belong to one block.
#[derive(Debug, Clone)]
pub struct GridBlockMetaSerde {
    pub block_id: String,
    pub row_metas: Vec<RowMeta>,
}

/// `i` is the index of the first field with the given id.
pub open spec fn first_field(fields: Seq<FieldMeta>, id: Seq<char>, i: int) -> bool {
    &&& 0 <= i < fields.len()
    &&& fields[i].id@ == id
    &&& forall|j: int| 0 <= j < i ==> (#[trigger] fields[j]).id@ != id
}

/// `i` is the index of the first block with the given id.
pub open spec fn first_block(blocks: Seq<GridBlockMeta>, id: Seq<char>, i: int) -> bool {
    &&& 0 <= i < blocks.len()
    &&& blocks[i].block_id@ == id
    &&& forall|j: int| 0 <= j < i ==> (#[trigger] blocks[j]).block_id@ != id
}

/// `i` is the index of the first row with the given id.
pub open spec fn first_row(rows: Seq<RowMeta>, id: Seq<char>, i: int) -> bool {
    &&& 0 <= i < rows.len()
    &&& rows[i].id@ == id
    &&& forall|j: int| 0 <= j < i ==> (#[trigger] rows[j]).id@ != id
}

/// `after` is `before` with the entry at `i` alone changed.
pub open spec fn same_but<T>(before: Seq<T>, after: Seq<T>, i: int) -> bool {
    &&& after.len() == before.len()
    &&& forall|j: int| 0 <= j < before.len() && j != i ==> #[trigger] after[j] == before[j]
}

impl GridMeta {
    /// Applies a field changeset to the first field with its id; `NotFound`,
    /// with the grid untouched, where no field has that id.
    pub fn update_field_meta(&mut self, changeset: &FieldChangeset) -> (r: Result<(), GridError>)
        ensures
            r is Err <==> forall|i: int|
                0 <= i < old(self).fields@.len() ==> (#[trigger] old(self).fields@[i]).id@
                    != changeset.field_id@,
            r is Err ==> r == Err::<(), GridError>(GridError::NotFound) && *final(self) == *old(self),
            r is Ok ==> exists|i: int|
                {
                    &&& first_field(old(self).fields@, changeset.field_id@, i)
                    &&& field_patched(old(self).fields@[i], #[trigger] final(self).fields@[i], *changeset)
                    &&& same_but(old(self).fields@, final(self).fields@, i)
                },
            final(self).grid_id == old(self).grid_id,
            final(self).block_metas == old(self).block_metas,
    {
        let n = self.fields.len();
        let mut i: usize = 0;
        while i < n
            invariant
                n == self.fields@.len(),
                *self == *old(self),
                0 <= i <= n,
                forall|j: int| 0 <= j < i ==> (#[trigger] self.fields@[j]).id@ != changeset.field_id@,
            decreases n - i,
        {
            if self.fields[i].id == changeset.field_id {
                let ghost before = self.fields@;
                self.fields[i].apply_changeset(changeset);
                assert(first_field(before, changeset.field_id@, i as int));
                assert(same_but(before, self.fields@, i as int));
                assert(field_patched(before[i as int], self.fields@[i as int], *changeset));
                return Ok(());
            }
            i = i + 1;
        }
        Err(GridError::NotFound)
    }

    /// Applies a block changeset to the first block with its id; `NotFound`,
    /// with the grid untouched, where no block has that id. Offsets of the
    /// other blocks are not recomputed here.
    pub fn update_block_meta(&mut self, changeset: &GridBlockMetaChangeset) -> (r: Result<(), GridError>)
        ensures
            r is Err <==> forall|i: int|
                0 <= i < old(self).block_metas@.len() ==> (#[trigger] old(self).block_metas@[i]).block_id@
                    != changeset.block_id@,
            r is Err ==> r == Err::<(), GridError>(GridError::NotFound) && *final(self) == *old(self),
            r is Ok ==> exists|i: int|
                {
                    &&& first_block(old(self).block_metas@, changeset.block_id@, i)
                    &&& (#[trigger] final(self).block_metas@[i]).block_id == old(self).block_metas@[i].block_id
                    &&& final(self).block_metas@[i].start_row_index == patched(
                        old(self).block_metas@[i].start_row_index,
                        changeset.start_row_index,
                    )
                    &&& final(self).block_metas@[i].row_count == patched(
                        old(self).block_metas@[i].row_count,
                        changeset.row_count,
                    )
                    &&& same_but(old(self).block_metas@, final(self).block_metas@, i)
                },
            final(self).grid_id == old(self).grid_id,
            final(self).fields == old(self).fields,
    {
        let n = self.block_metas.len();
        let mut i: usize = 0;
        while i < n
            invariant
                n == self.block_metas@.len(),
                *self == *old(self),
                0 <= i <= n,
                forall|j: int|
                    0 <= j < i ==> (#[trigger] self.block_metas@[j]).block_id@ != changeset.block_id@,
            decreases n - i,
        {
            if self.block_metas[i].block_id == changeset.block_id {
                let ghost before = self.block_metas@;
                self.block_metas[i].apply_changeset(changeset);
                assert(first_block(before, changeset.block_id@, i as int));
                assert(same_but(before, self.block_metas@, i as int));
                assert(self.block_metas@[i as int].block_id == before[i as int].block_id);
                return Ok(());
            }
            i = i + 1;
        }
        Err(GridError::NotFound)
    }
}

impl GridBlockMetaSerde {
    /// Every row's cells name each field once at most.
    pub open spec fn wf(&self) -> bool {
        forall|i: int| 0 <= i < self.row_metas@.len() ==> (#[trigger] self.row_metas@[i]).wf()
    }

    /// Applies a row changeset to the first row with its id; `NotFound`, with
    /// the rows untouched, where no row has that id.
    pub fn update_row_meta(&mut self, changeset: &RowMetaChangeset) -> (r: Result<(), GridError>)
        requires
            old(self).wf(),
            changeset.wf(),
        ensures
            final(self).wf(),
            r is Err <==> forall|i: int|
                0 <= i < old(self).row_metas@.len() ==> (#[trigger] old(self).row_metas@[i]).id@
                    != changeset.row_id@,
            r is Err ==> r == Err::<(), GridError>(GridError::NotFound) && *final(self) == *old(self),
            r is Ok ==> exists|i: int|
                {
                    &&& first_row(old(self).row_metas@, changeset.row_id@, i)
                    &&& #[trigger] final(self).row_metas@[i].id == old(self).row_metas@[i].id
                    &&& final(self).row_metas@[i].block_id == old(self).row_metas@[i].block_id
                    &&& final(self).row_metas@[i].height == patched(
                        old(self).row_metas@[i].height,
                        changeset.height,
                    )
                    &&& final(self).row_metas@[i].visibility == patched(
                        old(self).row_metas@[i].visibility,
                        changeset.visibility,
                    )
                    &&& final(self).row_metas@[i].cell_view()
                        == old(self).row_metas@[i].cell_view().union_prefer_right(changeset.cell_view())
                    &&& same_but(old(self).row_metas@, final(self).row_metas@, i)
                },
            final(self).block_id == old(self).block_id,
    {
        let n = self.row_metas.len();
        let mut i: usize = 0;
        while i < n
            invariant
                n == self.row_metas@.len(),
                *self == *old(self),
                self.wf(),
                changeset.wf(),
                0 <= i <= n,
                forall|j: int| 0 <= j < i ==> (#[trigger] self.row_metas@[j]).id@ != changeset.row_id@,
            decreases n - i,
        {
            if self.row_metas[i].id == changeset.row_id {
                let ghost before = self.row_metas@;
                assert(before[i as int].wf());
                self.row_metas[i].apply_changeset(changeset);
                assert(first_row(before, changeset.row_id@, i as int));
                assert(same_but(before, self.row_metas@, i as int));
                assert(self.row_metas@[i as int].wf());
                assert(self.row_metas@[i as int].id == before[i as int].id);
                return Ok(());
            }
            i = i + 1;
        }
        Err(GridError::NotFound)
    }
}

} // verus!
