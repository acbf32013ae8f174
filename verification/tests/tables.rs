use deli::screen::{shown_rows, TableKind};
use deli::dataframe::{
    cell_for_column, escape_csv, record_cells, CellValue, ColumnSchema, ColumnType, DataFrame,
    DateTimeCell, FloatCell, JsonField, JsonScalar,
};

fn text_field(text: &str) -> JsonField {
    JsonField {
        value: JsonScalar::Text(text.into()),
        json: format!("\"{text}\""),
    }
}

fn sample_frame() -> DataFrame {
    DataFrame {
        columns: vec![
            ColumnSchema {
                name: "service".into(),
                kind: ColumnType::String,
            },
            ColumnSchema {
                name: "replicas".into(),
                kind: ColumnType::Int,
            },
            ColumnSchema {
                name: "healthy".into(),
                kind: ColumnType::Bool,
            },
        ],
        rows: vec![
            vec![
                CellValue::String("api".into()),
                CellValue::Int(4),
                CellValue::Bool(true),
            ],
            vec![
                CellValue::String("worker".into()),
                CellValue::Int(2),
                CellValue::Bool(false),
            ],
        ],
    }
}

#[test]
fn filters_rows_using_substring_match() {
    let filtered = sample_frame().filter_contains("work");
    assert_eq!(filtered.rows.len(), 1);
    assert_eq!(filtered.rows[0][0], CellValue::String("worker".into()));
}

#[test]
fn sorts_rows_by_typed_column() {
    let sorted = sample_frame().sort_by_column("replicas", false);
    assert_eq!(sorted.rows[0][0], CellValue::String("api".into()));
}

#[test]
fn filter_ignores_case() {
    let filtered = sample_frame().filter_contains("WORK");
    assert_eq!(filtered.rows.len(), 1);
    assert_eq!(filtered.rows[0][0], CellValue::String("worker".into()));
}

#[test]
fn blank_filter_keeps_every_row() {
    let frame = sample_frame();
    let filtered = frame.filter_contains("   ");
    assert_eq!(filtered.rows, frame.rows);
    assert_eq!(frame.filter_row_indexes(""), vec![0, 1]);
}

#[test]
fn filter_indexes_match_filtered_rows() {
    let frame = sample_frame();
    let indexes = frame.filter_row_indexes("true");
    assert_eq!(indexes, vec![0]);
    let filtered = frame.filter_contains("true");
    assert_eq!(filtered.rows.len(), indexes.len());
    assert_eq!(filtered.rows[0], frame.rows[indexes[0]]);
}

#[test]
fn sorting_is_stable_and_ascending() {
    let mut frame = sample_frame();
    frame.rows.push(vec![
        CellValue::String("cache".into()),
        CellValue::Int(2),
        CellValue::Bool(true),
    ]);
    let sorted = frame.sort_by_column("replicas", true);
    let names: Vec<String> = sorted.rows.iter().map(|row| row[0].as_display()).collect();
    assert_eq!(names, vec!["worker", "cache", "api"]);
}

#[test]
fn sorting_by_unknown_column_keeps_rows() {
    let frame = sample_frame();
    let sorted = frame.sort_by_column("missing", true);
    assert_eq!(sorted.rows, frame.rows);
}

#[test]
fn exports_csv_with_displayed_cells() {
    let frame = DataFrame {
        columns: vec![
            ColumnSchema {
                name: "at".into(),
                kind: ColumnType::DateTime,
            },
            ColumnSchema {
                name: "note".into(),
                kind: ColumnType::String,
            },
        ],
        rows: vec![vec![
            CellValue::DateTime(DateTimeCell {
                display: "2026-04-06T01:02:03+00:00".into(),
                nanos: 1_775_437_323_000_000_000,
            }),
            CellValue::String("a,b".into()),
        ]],
    };
    let csv = frame.to_csv();
    assert!(csv.contains("2026-04-06T01:02:03+00:00"));
    assert_eq!(csv, "at,note\n2026-04-06T01:02:03+00:00,\"a,b\"\n");
}

#[test]
fn escapes_csv_fields_with_quotes() {
    assert_eq!(escape_csv("plain"), "plain");
    assert_eq!(escape_csv("say \"hi\""), "\"say \"\"hi\"\"\"");
    assert_eq!(escape_csv("two\nlines"), "\"two\nlines\"");
}

#[test]
fn displays_cells_as_text() {
    assert_eq!(CellValue::Int(-42).as_display(), "-42");
    assert_eq!(CellValue::Bool(false).as_display(), "false");
    assert_eq!(CellValue::Null.as_display(), "null");
    assert_eq!(
        CellValue::Float(FloatCell {
            display: "1.500".into(),
            json: "1.5".into(),
            rank: Some(0)
        })
        .as_display(),
        "1.500"
    );
}

#[test]
fn updates_row_from_converted_cells() {
    let mut frame = sample_frame();
    let result = frame.update_row_from_cells(
        1,
        vec![
            Some(CellValue::String("worker".into())),
            Some(CellValue::Int(9)),
            Some(CellValue::Bool(true)),
        ],
    );
    assert_eq!(result, Ok(()));
    assert_eq!(frame.rows[1][1], CellValue::Int(9));
    let record = frame.record_at(1).unwrap();
    assert_eq!(record[1], ("replicas".to_string(), CellValue::Int(9)));
}

#[test]
fn refuses_row_update_with_mismatched_cell() {
    let mut frame = sample_frame();
    let result = frame.update_row_from_cells(
        0,
        vec![Some(CellValue::String("api".into())), None, Some(CellValue::Bool(true))],
    );
    assert_eq!(result, Err("column 'replicas' expects Int".to_string()));
    assert_eq!(frame.rows, sample_frame().rows);
    let out_of_range = frame.update_row_from_cells(5, vec![None, None, None]);
    assert_eq!(out_of_range, Err("row index out of range".to_string()));
}

#[test]
fn reads_rfc3339_text_into_timestamp_cell() {
    let cell = cell_for_column(ColumnType::DateTime, text_field("2024-01-02T04:04:05+01:00"));
    assert_eq!(
        cell,
        Some(CellValue::DateTime(DateTimeCell {
            display: "2024-01-02T03:04:05+00:00".into(),
            nanos: 1_704_164_645_000_000_000,
        }))
    );
}

#[test]
fn refuses_text_that_is_no_timestamp() {
    assert_eq!(cell_for_column(ColumnType::DateTime, text_field("yesterday")), None);
}

#[test]
fn converts_json_fields_by_column_type() {
    let number = JsonField {
        value: JsonScalar::Number {
            whole: Some(7),
            float: Some(FloatCell {
                display: "7.000".into(),
                json: "7.0".into(),
                rank: Some(7),
            }),
        },
        json: "7".into(),
    };
    let copy = || JsonField {
        value: match &number.value {
            JsonScalar::Number { whole, float } => JsonScalar::Number {
                whole: *whole,
                float: float.clone(),
            },
            _ => unreachable!(),
        },
        json: number.json.clone(),
    };
    assert_eq!(cell_for_column(ColumnType::Int, copy()), Some(CellValue::Int(7)));
    assert_eq!(cell_for_column(ColumnType::String, copy()), Some(CellValue::String("7".into())));
    assert_eq!(cell_for_column(ColumnType::Json, copy()), Some(CellValue::Json("7".into())));
    assert_eq!(cell_for_column(ColumnType::Bool, copy()), None);
    let flag = JsonField {
        value: JsonScalar::Bool(true),
        json: "true".into(),
    };
    assert_eq!(cell_for_column(ColumnType::Int, flag), None);
    let null = JsonField {
        value: JsonScalar::Null,
        json: "null".into(),
    };
    assert_eq!(cell_for_column(ColumnType::Bool, null), Some(CellValue::Null));
}

#[test]
fn record_fields_fill_columns_by_name() {
    let columns = vec![
        ColumnSchema {
            name: "service".into(),
            kind: ColumnType::String,
        },
        ColumnSchema {
            name: "replicas".into(),
            kind: ColumnType::Int,
        },
        ColumnSchema {
            name: "healthy".into(),
            kind: ColumnType::Bool,
        },
    ];
    let record = vec![
        (
            "replicas".to_string(),
            JsonField {
                value: JsonScalar::Text("three".into()),
                json: "\"three\"".into(),
            },
        ),
        ("service".to_string(), text_field("api")),
    ];
    assert_eq!(
        record_cells(&columns, &record),
        vec![
            Some(CellValue::String("api".into())),
            None,
            Some(CellValue::Null),
        ]
    );
}

#[test]
fn table_panels_mark_the_selected_row_and_cap_rows() {
    let frame = sample_frame();
    let shown = shown_rows(TableKind::Configs, &frame.rows, 1);
    assert_eq!(shown.len(), 2);
    assert_eq!(shown[0].marker, " ");
    assert!(!shown[0].selected);
    assert_eq!(shown[1].marker, ">");
    assert!(shown[1].selected);
    assert_eq!(shown[1].cells, vec!["worker".to_string(), "2".to_string(), "false".to_string()]);
    let many: Vec<Vec<CellValue>> = (0..70).map(|n| vec![CellValue::Int(n)]).collect();
    assert_eq!(shown_rows(TableKind::Configs, &many, 0).len(), 40);
    assert_eq!(shown_rows(TableKind::Services, &many, 0).len(), 60);
}

#[test]
fn one_kind_column_sorts_in_order_and_stably() {
    let frame = DataFrame {
        columns: vec![
            ColumnSchema {
                name: "n".into(),
                kind: ColumnType::Int,
            },
            ColumnSchema {
                name: "tag".into(),
                kind: ColumnType::String,
            },
        ],
        rows: vec![
            vec![CellValue::Int(3), CellValue::String("a".into())],
            vec![CellValue::Int(1), CellValue::String("b".into())],
            vec![CellValue::Int(3), CellValue::String("c".into())],
            vec![CellValue::Int(2), CellValue::String("d".into())],
        ],
    };
    let tags = |f: &DataFrame| -> Vec<String> { f.rows.iter().map(|r| r[1].as_display()).collect() };
    assert_eq!(tags(&frame.sort_by_column("n", true)), vec!["b", "d", "a", "c"]);
    assert_eq!(tags(&frame.sort_by_column("n", false)), vec!["a", "c", "d", "b"]);
}
