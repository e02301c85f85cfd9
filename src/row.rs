use vstd::prelude::*;

use crate::block::patched;
use crate::ids::{fresh_id, ID_LEN};
use crate::DEFAULT_ROW_HEIGHT;

verus! {

/// One field's value within a row, as canonical text.
#[derive(Debug, Clone, PartialEq, Eq)]
pub struct CellMeta {
    pub field_id: String,
    pub data: String,
}

/// One record of the grid. `cells` holds at most one cell per field id.
#[derive(Debug, Clone, PartialEq, Eq)]
pub struct RowMeta {
    pub id: String,
    pub block_id: String,
    pub cells: Vec<CellMeta>,
    pub height: i32,
    pub visibility: bool,
}

/// A partial update of one row: height and visibility if present, and cells
/// to insert or replace (at most one per field id).
#[derive(Debug, Clone)]
pub struct RowMetaChangeset {
    pub row_id: String,
    pub height: Option<i32>,
    pub visibility: Option<bool>,
    pub cells: Vec<CellMeta>,
}

/// An edit of a single cell; without data it carries no cell effect.
#[derive(Debug, Clone, PartialEq, Eq)]
pub struct CellMetaChangeset {
    pub grid_id: String,
    pub row_id: String,
    pub field_id: String,
    pub data: Option<String>,
}

/// No two cells of the sequence belong to the same field.
pub open spec fn unique_fields(cells: Seq<CellMeta>) -> bool {
    forall|i: int, j: int|
        0 <= i < j < cells.len() ==> (#[trigger] cells[i]).field_id@ != (#[trigger] cells[j]).field_id@
}

/// The cells as a map from field id to data; a later cell of the same field
/// wins.
pub open spec fn cell_map(cells: Seq<CellMeta>) -> Map<Seq<char>, Seq<char>>
    decreases cells.len(),
{
    if cells.len() == 0 {
        Map::empty()
    } else {
        let last = cells.last();
        cell_map(cells.drop_last()).insert(last.field_id@, last.data@)
    }
}

impl RowMeta {
    /// The row's cell collection holds one cell per field id at most.
    pub open spec fn wf(&self) -> bool {
        unique_fields(self.cells@)
    }

    /// The row's cells as a map from field id to data.
    pub open spec fn cell_view(&self) -> Map<Seq<char>, Seq<char>> {
        cell_map(self.cells@)
    }
}

impl RowMetaChangeset {
    /// The changeset names each field id once at most.
    pub open spec fn wf(&self) -> bool {
        unique_fields(self.cells@)
    }

    /// The changeset's cells as a map from field id to data.
    pub open spec fn cell_view(&self) -> Map<Seq<char>, Seq<char>> {
        cell_map(self.cells@)
    }
}

proof fn lemma_cell_map_update(cells: Seq<CellMeta>, j: int, c: CellMeta)
    requires
        unique_fields(cells),
        0 <= j < cells.len(),
        c.field_id@ == cells[j].field_id@,
    ensures
        cell_map(cells.update(j, c)) == cell_map(cells).insert(c.field_id@, c.data@),
        unique_fields(cells.update(j, c)),
    decreases cells.len(),
{
    let upd = cells.update(j, c);
    assert(upd.drop_last() =~= if j == cells.len() - 1 {
        cells.drop_last()
    } else {
        cells.drop_last().update(j, c)
    });
    if j < cells.len() - 1 {
        lemma_cell_map_update(cells.drop_last(), j, c);
        assert(cells.last().field_id@ != c.field_id@);
        assert(cell_map(upd) =~= cell_map(cells).insert(c.field_id@, c.data@));
    } else {
        assert(cell_map(upd) =~= cell_map(cells).insert(c.field_id@, c.data@));
    }
    assert forall|a: int, b: int| 0 <= a < b < upd.len() implies (#[trigger] upd[a]).field_id@
        != (#[trigger] upd[b]).field_id@ by {
        assert(cells[a].field_id@ != cells[b].field_id@);
    }
}

proof fn lemma_cell_map_push(cells: Seq<CellMeta>, c: CellMeta)
    ensures
        cell_map(cells.push(c)) == cell_map(cells).insert(c.field_id@, c.data@),
{
    assert(cells.push(c).drop_last() =~= cells);
}

fn copy_cell(cell: &CellMeta) -> (r: CellMeta)
    ensures
        r.field_id@ == cell.field_id@,
        r.data@ == cell.data@,
{
    CellMeta { field_id: cell.field_id.clone(), data: cell.data.clone() }
}

/// Inserts the cell, replacing the one of the same field if there is one.
fn upsert_cell(cells: &mut Vec<CellMeta>, cell: CellMeta)
    requires
        unique_fields(old(cells)@),
    ensures
        unique_fields(final(cells)@),
        cell_map(final(cells)@) == cell_map(old(cells)@).insert(cell.field_id@, cell.data@),
{
    let n = cells.len();
    let mut j: usize = 0;
    while j < n
        invariant
            n == cells@.len(),
            0 <= j <= n,
            cells@ == old(cells)@,
            unique_fields(cells@),
            forall|t: int| 0 <= t < j ==> (#[trigger] cells@[t]).field_id@ != cell.field_id@,
        decreases n - j,
    {
        if cells[j].field_id == cell.field_id {
            proof {
                lemma_cell_map_update(cells@, j as int, cell);
            }
            cells[j] = cell;
            return;
        }
        j = j + 1;
    }
    proof {
        lemma_cell_map_push(cells@, cell);
    }
    let ghost before = cells@;
    cells.push(cell);
    assert forall|a: int, b: int| 0 <= a < b < cells@.len() implies (#[trigger] cells@[a]).field_id@
        != (#[trigger] cells@[b]).field_id@ by {
        if b < before.len() {
            assert(before[a].field_id@ != before[b].field_id@);
        } else {
            assert(before[a].field_id@ != cell.field_id@);
        }
    }
}

impl CellMeta {
    /// The cell of the given field holding the given data.
    pub fn new(field_id: &str, data: String) -> (r: CellMeta)
        ensures
            r.field_id@ == field_id@,
            r.data@ == data@,
    {
        CellMeta { field_id: field_id.to_owned(), data }
    }
}

impl RowMeta {
    /// A visible row of default height in the given block, with a fresh
    /// identifier and no cell.
    pub fn new(block_id: &str) -> (r: RowMeta)
        ensures
            r.wf(),
            r.id@.len() == ID_LEN,
            r.block_id@ == block_id@,
            r.cells@.len() == 0,
            r.cell_view() == Map::<Seq<char>, Seq<char>>::empty(),
            r.height == DEFAULT_ROW_HEIGHT,
            r.visibility,
    {
        RowMeta {
            id: fresh_id(),
            block_id: block_id.to_owned(),
            cells: Vec::new(),
            height: DEFAULT_ROW_HEIGHT,
            visibility: true,
        }
    }

    /// Applies the changeset: height and visibility where present, and its
    /// cells merged into the row's cells; the identity stays.
    pub fn apply_changeset(&mut self, changeset: &RowMetaChangeset)
        requires
            old(self).wf(),
            changeset.wf(),
        ensures
            final(self).wf(),
            final(self).id == old(self).id,
            final(self).block_id == old(self).block_id,
            final(self).height == patched(old(self).height, changeset.height),
            final(self).visibility == patched(old(self).visibility, changeset.visibility),
            final(self).cell_view() == old(self).cell_view().union_prefer_right(changeset.cell_view()),
    {
        if let Some(h) = changeset.height {
            self.height = h;
        }
        if let Some(v) = changeset.visibility {
            self.visibility = v;
        }
        let ghost base = self.cell_view();
        let n = changeset.cells.len();
        let mut i: usize = 0;
        while i < n
            invariant
                n == changeset.cells@.len(),
                0 <= i <= n,
                unique_fields(self.cells@),
                self.id == old(self).id,
                self.block_id == old(self).block_id,
                self.height == patched(old(self).height, changeset.height),
                self.visibility == patched(old(self).visibility, changeset.visibility),
                base == old(self).cell_view(),
                self.cell_view() == base.union_prefer_right(cell_map(changeset.cells@.take(i as int))),
            decreases n - i,
        {
            let cell = copy_cell(&changeset.cells[i]);
            upsert_cell(&mut self.cells, cell);
            proof {
                let prefix = changeset.cells@.take(i as int);
                assert(changeset.cells@.take(i + 1) =~= prefix.push(changeset.cells@[i as int]));
                lemma_cell_map_push(prefix, changeset.cells@[i as int]);
                assert(self.cell_view() =~= base.union_prefer_right(
                    cell_map(changeset.cells@.take(i + 1)),
                ));
            }
            i = i + 1;
        }
        assert(changeset.cells@.take(n as int) =~= changeset.cells@);
    }
}

impl RowMetaChangeset {
    /// The row-level form of a single-cell edit: no height or visibility, and
    /// the one cell if the edit carries data, else no cell.
    pub fn from_cell_changeset(changeset: CellMetaChangeset) -> (r: RowMetaChangeset)
        ensures
            r.wf(),
            r.row_id == changeset.row_id,
            r.height is None,
            r.visibility is None,
            r.cell_view() == (match changeset.data {
                Some(d) => map![changeset.field_id@ => d@],
                None => Map::<Seq<char>, Seq<char>>::empty(),
            }),
    {
        let mut cells: Vec<CellMeta> = Vec::new();
        if let Some(data) = changeset.data {
            let field_id = changeset.field_id;
            let cell = CellMeta { field_id: field_id.clone(), data };
            cells.push(cell);
            proof {
                lemma_cell_map_push(Seq::empty(), cell);
                assert(cells@ =~= Seq::<CellMeta>::empty().push(cell));
                assert(cell_map(cells@) =~= map![field_id@ => cell.data@]);
            }
        } else {
            assert(cell_map(cells@) =~= Map::<Seq<char>, Seq<char>>::empty());
        }
        RowMetaChangeset { row_id: changeset.row_id, height: None, visibility: None, cells }
    }
}

/// Merging a changeset's cells into a row keeps the row's cells of the fields
/// that the changeset does not name, and takes the changeset's cells for the
/// fields it does name.
pub proof fn lemma_merge_keeps_other_cells(
    before: Map<Seq<char>, Seq<char>>,
    patch: Map<Seq<char>, Seq<char>>,
    after: Map<Seq<char>, Seq<char>>,
)
    requires
        after == before.union_prefer_right(patch),
    ensures
        forall|k: Seq<char>|
            #[trigger] patch.contains_key(k) ==> after.contains_key(k) && after[k] == patch[k],
        forall|k: Seq<char>|
            before.contains_key(k) && !patch.contains_key(k) ==> #[trigger] after.contains_key(k)
                && after[k] == before[k],
        forall|k: Seq<char>|
            #[trigger] after.contains_key(k) ==> before.contains_key(k) || patch.contains_key(k),
{
}

} // verus!
