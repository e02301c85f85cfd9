use vstd::prelude::*;

use crate::block::GridBlockMeta;
use crate::field::FieldMeta;
use crate::grid::GridBlockMetaSerde;
use crate::ids::ID_LEN;

verus! {

/// What a new grid starts from: its fields, one block, and that block's rows.
#[derive(Debug, Clone)]
pub struct BuildGridContext {
    pub field_metas: Vec<FieldMeta>,
    pub block_metas: GridBlockMeta,
    pub block_meta_data: GridBlockMetaSerde,
}

impl Default for BuildGridContext {
    /// No field, and one empty block with a fresh id whose row collection is
    /// empty and carries the same id.
    fn default() -> (r: BuildGridContext)
        ensures
            r.field_metas@.len() == 0,
            r.block_metas.block_id@ == r.block_meta_data.block_id@,
            r.block_metas.block_id@.len() == ID_LEN,
            r.block_metas.start_row_index == 0,
            r.block_metas.row_count == 0,
            r.block_meta_data.row_metas@.len() == 0,
    {
        let grid_block = GridBlockMeta::new();
        let block_meta_data = GridBlockMetaSerde { block_id: grid_block.block_id.clone(), row_metas: Vec::new() };
        BuildGridContext { field_metas: Vec::new(), block_metas: grid_block, block_meta_data }
    }
}

} // verus!
