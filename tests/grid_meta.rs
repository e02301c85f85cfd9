use grid_meta::block::{recompute_offsets, GridBlockMeta, GridBlockMetaChangeset};
use grid_meta::context::BuildGridContext;
use grid_meta::envelope::AnyData;
use grid_meta::error::GridError;
use grid_meta::field::{FieldChangeset, FieldMeta};
use grid_meta::field_type::FieldType;
use grid_meta::grid::{GridBlockMetaSerde, GridMeta};
use grid_meta::row::{CellMeta, CellMetaChangeset, RowMeta, RowMetaChangeset};
use grid_meta::{DEFAULT_FIELD_WIDTH, DEFAULT_ROW_HEIGHT};

const ALL_TYPES: [FieldType; 6] = [
    FieldType::RichText,
    FieldType::Number,
    FieldType::DateTime,
    FieldType::SingleSelect,
    FieldType::MultiSelect,
    FieldType::Checkbox,
];

fn block(id: &str, start: i32, count: i32) -> GridBlockMeta {
    GridBlockMeta { block_id: id.to_string(), start_row_index: start, row_count: count }
}

fn empty_field_changeset(field_id: &str) -> FieldChangeset {
    FieldChangeset {
        field_id: field_id.to_string(),
        name: None,
        desc: None,
        field_type: None,
        frozen: None,
        visibility: None,
        width: None,
        type_options: None,
    }
}

fn find_cell<'a>(row: &'a RowMeta, field_id: &str) -> Option<&'a str> {
    row.cells.iter().find(|c| c.field_id == field_id).map(|c| c.data.as_str())
}

#[test]
fn type_ids_are_digits_in_variant_order() {
    let expected = ["0", "1", "2", "3", "4", "5"];
    for (t, tag) in ALL_TYPES.iter().zip(expected.iter()) {
        assert_eq!(t.type_id(), *tag);
    }
}

#[test]
fn type_id_round_trips() {
    for t in ALL_TYPES.iter() {
        assert_eq!(FieldType::from_type_id(&t.type_id()), Ok(*t));
    }
}

#[test]
fn unknown_tags_are_rejected() {
    for tag in ["6", "", "00", "a", "-1", " 0", "10", "٣"] {
        assert_eq!(FieldType::from_type_id(tag), Err(GridError::InvalidTag));
    }
}

#[test]
fn default_field_type_is_rich_text() {
    assert_eq!(FieldType::default(), FieldType::RichText);
}

#[test]
fn envelope_round_trips_text() {
    let data = AnyData::from_str(FieldType::RichText, "hello");
    assert_eq!(data.type_id, "0");
    assert_eq!(data.value, b"hello".to_vec());
    assert_eq!(data.to_string(), "hello");
}

#[test]
fn envelope_keeps_multibyte_text() {
    let data = AnyData::from_str(FieldType::Number, "héllo✓");
    assert_eq!(data.type_id, "1");
    assert_eq!(data.value.len(), 9);
    assert_eq!(data.to_string(), "héllo✓");
}

#[test]
fn envelope_of_invalid_utf8_reads_empty() {
    let data = AnyData::from_bytes(FieldType::Checkbox, &[0xff, 0xfe, 0x41]);
    assert_eq!(data.type_id, "5");
    assert_eq!(data.value, vec![0xff, 0xfe, 0x41]);
    assert_eq!(data.to_string(), "");
}

#[test]
fn envelope_of_raw_utf8_bytes_reads_text() {
    let data = AnyData::from_bytes(FieldType::DateTime, b"1647251762");
    assert_eq!(data.type_id, "2");
    assert_eq!(data.to_string(), "1647251762");
}

#[test]
fn new_block_is_empty_with_fresh_id() {
    let a = GridBlockMeta::new();
    let b = GridBlockMeta::new();
    assert_eq!(a.len(), 0);
    assert!(a.is_empty());
    assert_eq!(a.start_row_index, 0);
    assert_eq!(a.block_id.len(), 36);
    assert_ne!(a.block_id, b.block_id);
}

#[test]
fn block_len_and_is_empty() {
    let b = block("b", 4, 7);
    assert_eq!(b.len(), 7);
    assert!(!b.is_empty());
}

#[test]
fn changeset_from_row_count_sets_only_count() {
    let cs = GridBlockMetaChangeset::from_row_count("b1", 12);
    assert_eq!(cs.block_id, "b1");
    assert_eq!(cs.start_row_index, None);
    assert_eq!(cs.row_count, Some(12));
    let mut b = block("b1", 3, 1);
    b.apply_changeset(&cs);
    assert_eq!(b, block("b1", 3, 12));
}

#[test]
fn block_changeset_sets_both_attributes() {
    let cs = GridBlockMetaChangeset { block_id: "b".to_string(), start_row_index: Some(9), row_count: Some(2) };
    let mut b = block("b", 0, 0);
    b.apply_changeset(&cs);
    assert_eq!(b, block("b", 9, 2));
}

#[test]
fn offsets_are_running_totals() {
    let mut blocks = vec![block("a", 7, 3), block("b", 0, 0), block("c", 1, 5), block("d", 100, 2)];
    recompute_offsets(&mut blocks);
    let starts: Vec<i32> = blocks.iter().map(|b| b.start_row_index).collect();
    let counts: Vec<i32> = blocks.iter().map(|b| b.row_count).collect();
    let ids: Vec<&str> = blocks.iter().map(|b| b.block_id.as_str()).collect();
    assert_eq!(starts, vec![0, 3, 3, 8]);
    assert_eq!(counts, vec![3, 0, 5, 2]);
    assert_eq!(ids, vec!["a", "b", "c", "d"]);
}

#[test]
fn offsets_of_no_blocks() {
    let mut blocks: Vec<GridBlockMeta> = vec![];
    recompute_offsets(&mut blocks);
    assert!(blocks.is_empty());
}

#[test]
fn offsets_up_to_the_largest_total() {
    let mut blocks = vec![block("a", 0, i32::MAX - 1), block("b", 0, 1), block("c", 0, 0)];
    recompute_offsets(&mut blocks);
    assert_eq!(blocks[1].start_row_index, i32::MAX - 1);
    assert_eq!(blocks[2].start_row_index, i32::MAX);
}

#[test]
fn new_field_has_defaults() {
    let f = FieldMeta::new("Name", "the name", FieldType::SingleSelect);
    assert_eq!(f.name, "Name");
    assert_eq!(f.desc, "the name");
    assert_eq!(f.field_type, FieldType::SingleSelect);
    assert!(!f.frozen);
    assert!(f.visibility);
    assert_eq!(f.width, DEFAULT_FIELD_WIDTH);
    assert_eq!(f.width, 150);
    assert_eq!(f.type_options, "");
    assert_eq!(f.id.len(), 36);
    assert_ne!(f.id, FieldMeta::new("Name", "the name", FieldType::SingleSelect).id);
}

#[test]
fn width_only_changeset_changes_width() {
    let mut f = FieldMeta::new("Amount", "", FieldType::Number);
    let before = f.clone();
    let mut cs = empty_field_changeset(&f.id);
    cs.width = Some(200);
    f.apply_changeset(&cs);
    assert_eq!(f.width, 200);
    assert_eq!(f.name, before.name);
    assert_eq!(f.field_type, before.field_type);
    assert_eq!(f.visibility, before.visibility);
    assert_eq!(f.id, before.id);
    assert_eq!(f.type_options, before.type_options);
}

#[test]
fn full_field_changeset_applies_everything() {
    let mut f = FieldMeta::new("A", "B", FieldType::RichText);
    let cs = FieldChangeset {
        field_id: f.id.clone(),
        name: Some("N".to_string()),
        desc: Some("D".to_string()),
        field_type: Some(FieldType::MultiSelect),
        frozen: Some(true),
        visibility: Some(false),
        width: Some(80),
        type_options: Some("{\"options\":[]}".to_string()),
    };
    let id = f.id.clone();
    f.apply_changeset(&cs);
    assert_eq!(f.id, id);
    assert_eq!(f.name, "N");
    assert_eq!(f.desc, "D");
    assert_eq!(f.field_type, FieldType::MultiSelect);
    assert!(f.frozen);
    assert!(!f.visibility);
    assert_eq!(f.width, 80);
    assert_eq!(f.type_options, "{\"options\":[]}");
}

fn sample_grid() -> GridMeta {
    GridMeta {
        grid_id: "g".to_string(),
        fields: vec![FieldMeta::new("A", "", FieldType::RichText), FieldMeta::new("B", "", FieldType::Checkbox)],
        block_metas: vec![block("b0", 0, 2), block("b1", 2, 3)],
    }
}

#[test]
fn grid_field_update_targets_named_field() {
    let mut grid = sample_grid();
    let id = grid.fields[1].id.clone();
    let mut cs = empty_field_changeset(&id);
    cs.name = Some("Done".to_string());
    assert_eq!(grid.update_field_meta(&cs), Ok(()));
    assert_eq!(grid.fields[1].name, "Done");
    assert_eq!(grid.fields[0].name, "A");
}

#[test]
fn grid_field_update_with_unknown_id_is_not_found() {
    let mut grid = sample_grid();
    let before = grid.fields.clone();
    let mut cs = empty_field_changeset("missing");
    cs.width = Some(1);
    assert_eq!(grid.update_field_meta(&cs), Err(GridError::NotFound));
    assert_eq!(grid.fields, before);
}

#[test]
fn grid_block_update_then_recompute() {
    let mut grid = sample_grid();
    let cs = GridBlockMetaChangeset::from_row_count("b0", 5);
    assert_eq!(grid.update_block_meta(&cs), Ok(()));
    assert_eq!(grid.block_metas[0], block("b0", 0, 5));
    assert_eq!(grid.block_metas[1], block("b1", 2, 3));
    recompute_offsets(&mut grid.block_metas);
    assert_eq!(grid.block_metas[1], block("b1", 5, 3));
}

#[test]
fn grid_block_update_with_unknown_id_is_not_found() {
    let mut grid = sample_grid();
    let cs = GridBlockMetaChangeset::from_row_count("nope", 5);
    assert_eq!(grid.update_block_meta(&cs), Err(GridError::NotFound));
    assert_eq!(grid.block_metas, vec![block("b0", 0, 2), block("b1", 2, 3)]);
}

#[test]
fn new_row_has_defaults() {
    let r = RowMeta::new("b1");
    assert_eq!(r.block_id, "b1");
    assert!(r.cells.is_empty());
    assert_eq!(r.height, DEFAULT_ROW_HEIGHT);
    assert_eq!(r.height, 36);
    assert!(r.visibility);
    assert_eq!(r.id.len(), 36);
    assert_ne!(r.id, RowMeta::new("b1").id);
}

#[test]
fn new_cell_holds_its_values() {
    let c = CellMeta::new("f1", "x".to_string());
    assert_eq!(c.field_id, "f1");
    assert_eq!(c.data, "x");
}

#[test]
fn row_changeset_merges_cells() {
    let mut row = RowMeta::new("b");
    row.cells.push(CellMeta::new("B", "w".to_string()));
    let cs = RowMetaChangeset {
        row_id: row.id.clone(),
        height: None,
        visibility: None,
        cells: vec![CellMeta::new("A", "v".to_string())],
    };
    row.apply_changeset(&cs);
    assert_eq!(row.cells.len(), 2);
    assert_eq!(find_cell(&row, "A"), Some("v"));
    assert_eq!(find_cell(&row, "B"), Some("w"));
    assert_eq!(row.height, 36);
    assert!(row.visibility);
}

#[test]
fn row_changeset_replaces_existing_cell() {
    let mut row = RowMeta::new("b");
    row.cells.push(CellMeta::new("A", "old".to_string()));
    row.cells.push(CellMeta::new("B", "w".to_string()));
    let cs = RowMetaChangeset {
        row_id: row.id.clone(),
        height: Some(60),
        visibility: Some(false),
        cells: vec![CellMeta::new("A", "new".to_string())],
    };
    row.apply_changeset(&cs);
    assert_eq!(row.cells.len(), 2);
    assert_eq!(find_cell(&row, "A"), Some("new"));
    assert_eq!(find_cell(&row, "B"), Some("w"));
    assert_eq!(row.height, 60);
    assert!(!row.visibility);
}

#[test]
fn cell_changeset_without_data_has_no_cells() {
    let cs = CellMetaChangeset {
        grid_id: "g".to_string(),
        row_id: "r".to_string(),
        field_id: "f1".to_string(),
        data: None,
    };
    let rc = RowMetaChangeset::from_cell_changeset(cs);
    assert_eq!(rc.row_id, "r");
    assert_eq!(rc.height, None);
    assert_eq!(rc.visibility, None);
    assert!(rc.cells.is_empty());
}

#[test]
fn cell_changeset_with_data_has_one_cell() {
    let cs = CellMetaChangeset {
        grid_id: "g".to_string(),
        row_id: "r".to_string(),
        field_id: "f1".to_string(),
        data: Some("x".to_string()),
    };
    let rc = RowMetaChangeset::from_cell_changeset(cs);
    assert_eq!(rc.row_id, "r");
    assert_eq!(rc.height, None);
    assert_eq!(rc.visibility, None);
    assert_eq!(rc.cells, vec![CellMeta::new("f1", "x".to_string())]);
}

#[test]
fn block_rows_update_targets_named_row() {
    let mut rows = GridBlockMetaSerde { block_id: "b".to_string(), row_metas: vec![RowMeta::new("b"), RowMeta::new("b")] };
    let id = rows.row_metas[1].id.clone();
    let cs = RowMetaChangeset::from_cell_changeset(CellMetaChangeset {
        grid_id: "g".to_string(),
        row_id: id,
        field_id: "f".to_string(),
        data: Some("1".to_string()),
    });
    assert_eq!(rows.update_row_meta(&cs), Ok(()));
    assert_eq!(find_cell(&rows.row_metas[1], "f"), Some("1"));
    assert!(rows.row_metas[0].cells.is_empty());
}

#[test]
fn block_rows_update_with_unknown_id_is_not_found() {
    let mut rows = GridBlockMetaSerde { block_id: "b".to_string(), row_metas: vec![RowMeta::new("b")] };
    let before = rows.row_metas.clone();
    let cs = RowMetaChangeset { row_id: "none".to_string(), height: Some(1), visibility: None, cells: vec![] };
    assert_eq!(rows.update_row_meta(&cs), Err(GridError::NotFound));
    assert_eq!(rows.row_metas, before);
}

#[test]
fn default_context_shares_one_block_id() {
    let ctx = BuildGridContext::default();
    assert!(ctx.field_metas.is_empty());
    assert_eq!(ctx.block_metas.block_id, ctx.block_meta_data.block_id);
    assert_eq!(ctx.block_metas.block_id.len(), 36);
    assert_eq!(ctx.block_metas.row_count, 0);
    assert_eq!(ctx.block_metas.start_row_index, 0);
    assert!(ctx.block_meta_data.row_metas.is_empty());
}
