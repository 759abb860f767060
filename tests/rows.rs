use lens::model::StreamId;
use lens::naming::{registration_name, TableName};
use lens::rows::Batch;

fn strings(v: &[&str]) -> Vec<String> {
    v.iter().map(|s| s.to_string()).collect()
}

#[test]
fn null_cell_renders_as_empty_string() {
    let cells = vec![
        vec![Some("1".to_string()), None],
        vec![None, Some("x".to_string())],
    ];
    let b = Batch::new(strings(&["id", "name"]), cells, 2).unwrap();
    let rows = b.to_rows();
    assert_eq!(rows.len(), 2);
    assert_eq!(rows[0].columns, strings(&["id", "name"]));
    assert_eq!(rows[0].values, strings(&["1", ""]));
    assert_eq!(rows[1].columns, strings(&["id", "name"]));
    assert_eq!(rows[1].values, strings(&["", "x"]));
    for r in &rows {
        assert_eq!(r.columns.len(), r.values.len());
    }
}

#[test]
fn batch_shape_is_checked() {
    assert!(Batch::new(strings(&["a", "b"]), vec![vec![None]], 1).is_none());
    assert!(Batch::new(strings(&["a"]), vec![vec![None, None]], 1).is_none());
    assert!(Batch::new(strings(&["a"]), vec![vec![None]], 1).is_some());
    let empty = Batch::new(Vec::new(), Vec::new(), 3).unwrap();
    let rows = empty.to_rows();
    assert_eq!(rows.len(), 3);
    assert!(rows[0].columns.is_empty() && rows[0].values.is_empty());
}

#[test]
fn three_part_name_is_fully_qualified() {
    let parsed = TableName::from_parts(strings(&["db", "schema", "tbl"])).unwrap();
    assert_eq!(
        parsed,
        TableName::Full {
            catalog: "db".to_string(),
            schema: "schema".to_string(),
            table: "tbl".to_string()
        }
    );
    let planned = TableName::Bare { table: "db.schema.tbl".to_string() };
    let kept = registration_name(Some(parsed), planned);
    assert!(matches!(kept, TableName::Full { ref catalog, ref schema, ref table }
        if catalog == "db" && schema == "schema" && table == "tbl"));
}

#[test]
fn planned_name_kept_without_registration() {
    let planned = TableName::Partial { schema: "s".to_string(), table: "t".to_string() };
    let r = registration_name(None, planned);
    assert_eq!(r, TableName::Partial { schema: "s".to_string(), table: "t".to_string() });
}

#[test]
fn name_part_counts() {
    assert!(TableName::from_parts(Vec::new()).is_none());
    assert!(TableName::from_parts(strings(&["a", "b", "c", "d"])).is_none());
    assert_eq!(
        TableName::from_parts(strings(&["t"])).unwrap(),
        TableName::Bare { table: "t".to_string() }
    );
    assert_eq!(
        TableName::from_parts(strings(&["s", "t"])).unwrap(),
        TableName::Partial { schema: "s".to_string(), table: "t".to_string() }
    );
}

#[test]
fn stream_id_text_is_hyphenated_uuid() {
    let id = StreamId(0x0123_4567_89ab_cdef_0123_4567_89ab_cdef);
    assert_eq!(id.to_string(), "01234567-89ab-cdef-0123-456789abcdef");
    let fresh = StreamId::new();
    assert_eq!(fresh.to_string().len(), 36);
    assert_ne!(StreamId::new(), StreamId::new());
    let t = fresh.0;
    assert_eq!((t >> 76) & 0xf, 4);
    assert_eq!((t >> 62) & 0x3, 2);
    assert_eq!(StreamId(u128::MAX).to_string(), "ffffffff-ffff-ffff-ffff-ffffffffffff");
}

#[test]
fn dotted_text_reads_as_three_parts() {
    let name = lens::naming::qualified_name("db.schema.tbl");
    assert_eq!(
        name,
        TableName::Full {
            catalog: "db".to_string(),
            schema: "schema".to_string(),
            table: "tbl".to_string()
        }
    );
}

#[test]
fn quoted_part_keeps_its_dot_and_case() {
    let name = lens::naming::qualified_name("\"My.Schema\".Tbl");
    assert_eq!(
        name,
        TableName::Partial { schema: "My.Schema".to_string(), table: "tbl".to_string() }
    );
}

#[test]
fn registration_statement_name_replaces_bare_plan_name() {
    let planned = TableName::Bare { table: "db.schema.tbl".to_string() };
    let r = lens::naming::corrected_name(Some("db.schema.tbl"), planned);
    assert_eq!(
        r,
        TableName::Full {
            catalog: "db".to_string(),
            schema: "schema".to_string(),
            table: "tbl".to_string()
        }
    );
    let planned = TableName::Bare { table: "t".to_string() };
    assert_eq!(
        lens::naming::corrected_name(None, planned),
        TableName::Bare { table: "t".to_string() }
    );
}
