use arcee_code::toon::{ToonBuilder, ToonValue};

#[test]
fn scalar_renders_plain() {
    let v = ToonValue::Scalar("hello".into());
    assert_eq!(v.render(), "hello");
}

#[test]
fn map_renders_key_value() {
    let v = ToonValue::Dict(vec![
        ("name".into(), ToonValue::Scalar("foo".into())),
        ("count".into(), ToonValue::Scalar("3".into())),
    ]);
    assert_eq!(v.render(), "name: foo\ncount: 3");
}

#[test]
fn nested_map_renders_indented() {
    let inner = ToonValue::Dict(vec![("port".into(), ToonValue::Scalar("8080".into()))]);
    let outer = ToonValue::Dict(vec![("server".into(), inner)]);
    let expected = "server:\n  port: 8080";
    assert_eq!(outer.render(), expected);
}

#[test]
fn table_renders_header_and_rows() {
    let v = ToonValue::Table {
        columns: vec!["path".into(), "size".into()],
        rows: vec![
            vec!["a.rs".into(), "10".into()],
            vec!["b.rs".into(), "20".into()],
        ],
    };
    let rendered = v.render();
    assert_eq!(rendered, "path | size\na.rs | 10\nb.rs | 20");
}

#[test]
fn empty_table_inline() {
    let v = ToonValue::Dict(vec![(
        "files".into(),
        ToonValue::Table {
            columns: vec!["path".into()],
            rows: vec![],
        },
    )]);
    assert_eq!(v.render(), "files [0]: (empty)");
}

#[test]
fn table_in_map_has_count_header() {
    let doc = ToonBuilder::new()
        .table(
            "files",
            vec!["path".to_string(), "size".to_string()],
            vec![
                vec!["a.rs".into(), "1".into()],
                vec!["b.rs".into(), "2".into()],
                vec!["c.rs".into(), "3".into()],
            ],
        )
        .build();
    let rendered = doc.render();
    assert!(rendered.starts_with("files [3]:"));
    assert!(rendered.contains("path | size"));
    assert!(rendered.contains("a.rs | 1"));
}

#[test]
fn builder_fields_and_nested_map() {
    let doc = ToonBuilder::new()
        .field("a", "1")
        .map("b", ToonValue::Dict(vec![("c".into(), ToonValue::Scalar("2".into()))]))
        .build();
    assert_eq!(doc.render(), "a: 1\nb:\n  c: 2");
}

#[test]
fn indenting_shifts_every_line() {
    let make_table = || ToonValue::Table {
        columns: vec!["file".into(), "line".into()],
        rows: vec![vec!["a.rs".into(), "1".into()], vec!["b.rs".into()]],
    };
    let table = make_table();
    let doc = ToonValue::Dict(vec![
        ("status".into(), ToonValue::Scalar("ok".into())),
        ("hits".into(), make_table()),
        ("none".into(), ToonValue::Table { columns: vec!["x".into()], rows: vec![] }),
    ]);
    for v in [table, doc] {
        assert_eq!(v.render_with_indent(0), v.render());
        for d in 1..4 {
            let expected: Vec<String> = v.render().lines().map(|l| format!("{}{}", "  ".repeat(d), l)).collect();
            let got: Vec<String> = v.render_with_indent(d).lines().map(|l| l.to_string()).collect();
            assert_eq!(got, expected);
        }
    }
    assert_eq!(ToonValue::Scalar("s".into()).render_with_indent(3), "s");
}
