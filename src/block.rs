use vstd::prelude::*;

use crate::ids::{fresh_id, ID_LEN};

verus! {

/// A contiguous run of rows: where it starts in the grid's row numbering and
/// how many rows it holds.
#[derive(Debug, Clone, PartialEq, Eq)]
pub struct GridBlockMeta {
    pub block_id: String,
    pub start_row_index: i32,
    pub row_count: i32,
}

/// A partial update of one block; absent attributes are left as they are.
#[derive(Debug, Clone)]
pub struct GridBlockMetaChangeset {
    pub block_id: String,
    pub start_row_index: Option<i32>,
    pub row_count: Option<i32>,
}

/// The value of an optional attribute after a patch.
pub open spec fn patched<T>(current: T, update: Option<T>) -> T {
    match update {
        Some(v) => v,
        None => current,
    }
}

/// Sum of the row counts of the first `n` blocks.
pub open spec fn rows_before(blocks: Seq<GridBlockMeta>, n: int) -> int
    decreases n,
{
    if n <= 0 {
        0
    } else {
        rows_before(blocks, n - 1) + blocks[n - 1].row_count
    }
}

/// Every block starts where the rows of the blocks before it end.
pub open spec fn offsets_consistent(blocks: Seq<GridBlockMeta>) -> bool {
    forall|i: int| 0 <= i < blocks.len() ==> #[trigger] blocks[i].start_row_index == rows_before(blocks, i)
}

/// Every running total of row counts fits in an `i32`.
pub open spec fn offsets_fit(blocks: Seq<GridBlockMeta>) -> bool {
    forall|i: int| 0 <= i <= blocks.len() ==> i32::MIN <= #[trigger] rows_before(blocks, i) <= i32::MAX
}

impl GridBlockMeta {
    /// The number of rows in the block.
    pub fn len(&self) -> (r: i32)
        ensures
            r == self.row_count,
    {
        self.row_count
    }

    /// Whether the block holds no row.
    pub fn is_empty(&self) -> (r: bool)
        ensures
            r == (self.row_count == 0),
    {
        self.row_count == 0
    }

    /// An empty block with a fresh identifier.
    pub fn new() -> (r: GridBlockMeta)
        ensures
            r.block_id@.len() == ID_LEN,
            r.start_row_index == 0,
            r.row_count == 0,
    {
        GridBlockMeta { block_id: fresh_id(), start_row_index: 0, row_count: 0 }
    }

    /// Applies the attributes that the changeset carries; the identifier stays.
    pub fn apply_changeset(&mut self, changeset: &GridBlockMetaChangeset)
        ensures
            final(self).block_id == old(self).block_id,
            final(self).start_row_index == patched(old(self).start_row_index, changeset.start_row_index),
            final(self).row_count == patched(old(self).row_count, changeset.row_count),
    {
        if let Some(start) = changeset.start_row_index {
            self.start_row_index = start;
        }
        if let Some(count) = changeset.row_count {
            self.row_count = count;
        }
    }
}

impl GridBlockMetaChangeset {
    /// A changeset that sets only the row count of a block.
    pub fn from_row_count(block_id: &str, row_count: i32) -> (r: GridBlockMetaChangeset)
        ensures
            r.block_id@ == block_id@,
            r.start_row_index is None,
            r.row_count == Some(row_count),
    {
        GridBlockMetaChangeset { block_id: block_id.to_owned(), start_row_index: None, row_count: Some(row_count) }
    }
}

/// Sets each block's start to the number of rows in the blocks before it;
/// identifiers, counts and order are kept.
pub fn recompute_offsets(blocks: &mut Vec<GridBlockMeta>)
    requires
        offsets_fit(old(blocks)@),
    ensures
        final(blocks)@.len() == old(blocks)@.len(),
        forall|i: int|
            0 <= i < final(blocks)@.len() ==> {
                &&& (#[trigger] final(blocks)@[i]).block_id == old(blocks)@[i].block_id
                &&& final(blocks)@[i].row_count == old(blocks)@[i].row_count
                &&& final(blocks)@[i].start_row_index == rows_before(old(blocks)@, i)
            },
        offsets_consistent(final(blocks)@),
{
    let ghost before = blocks@;
    let n = blocks.len();
    let mut total: i32 = 0;
    let mut i: usize = 0;
    while i < n
        invariant
            n == blocks@.len(),
            before.len() == n,
            0 <= i <= n,
            offsets_fit(before),
            total == rows_before(before, i as int),
            forall|j: int|
                0 <= j < n ==> {
                    &&& (#[trigger] blocks@[j]).block_id == before[j].block_id
                    &&& blocks@[j].row_count == before[j].row_count
                    &&& j < i ==> blocks@[j].start_row_index == rows_before(before, j)
                },
        decreases n - i,
    {
        blocks[i].start_row_index = total;
        assert(i32::MIN <= rows_before(before, i as int + 1) <= i32::MAX);
        total = total + blocks[i].row_count;
        i = i + 1;
    }
    proof {
        assert forall|j: int| 0 <= j < n implies rows_before(blocks@, j) == rows_before(before, j) by {
            lemma_rows_before_depends_on_counts(blocks@, before, j);
        }
    }
}

proof fn lemma_rows_before_depends_on_counts(a: Seq<GridBlockMeta>, b: Seq<GridBlockMeta>, n: int)
    requires
        0 <= n <= a.len(),
        a.len() == b.len(),
        forall|j: int| 0 <= j < a.len() ==> (#[trigger] a[j]).row_count == b[j].row_count,
    ensures
        rows_before(a, n) == rows_before(b, n),
    decreases n,
{
    if n > 0 {
        lemma_rows_before_depends_on_counts(a, b, n - 1);
    }
}

} // verus!
