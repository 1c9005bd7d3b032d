use retl::config::Config;
use retl::expressions::{Column, ExpressionChain, ExpressionItem, Match};
use retl::exports::{CsvExport, ExportItem, JsonExport, NdJsonExport, WriteMode};
use retl::plan::{
    ConcatType, DuplicateKeep, Expr, ExprList, JoinType, Plan, Scan, Selector, StrFunction,
    UnionArgs, Value,
};
use retl::sources::{ConfigSource, CsvSource, Loader, Separator, SourceItem};
use retl::transforms::{
    Collect, Concat, DropDuplicates, Extract, Filter, Join, Rename, Select, SetColumn, Sort,
    SortBy, TransformItem,
};
use retl::utils::{parent_directory, resolve_path, CanonicalPath, CanonicalPaths, Error};

fn col(name: &str) -> ExpressionChain {
    ExpressionChain { expr: ExpressionItem::Col(Column(name.to_string())), ops: vec![] }
}

fn one(e: Expr) -> ExprList {
    ExprList::Cons(Box::new(e), Box::new(ExprList::Nil))
}

fn csv_source(path: &str) -> SourceItem {
    SourceItem::Csv(CsvSource {
        path: CanonicalPaths(vec![path.to_string()]),
        separator: None,
        has_header: None,
        schema: None,
    })
}

fn csv_scan(path: &str) -> Plan {
    Plan::Scan(Scan::Csv {
        paths: vec![path.to_string()],
        separator: None,
        has_header: true,
        truncate_ragged_lines: true,
        schema: None,
    })
}

fn csv_export(folder: &str, name: &str, date_format: Option<&str>) -> ExportItem {
    ExportItem::Csv(CsvExport {
        folder: folder.to_string(),
        name: name.to_string(),
        date_format: date_format.map(|s| s.to_string()),
        sink: None,
    })
}

#[test]
fn select_scenario_builds_plan_and_target() {
    let config = Config {
        source: Loader { source: csv_source("/data/a.csv"), transforms: vec![] },
        transforms: vec![TransformItem::Select(Select(vec![col("x")]))],
        exports: vec![csv_export("./out", "result", None)],
    };
    let (plan, exports) = config.run().unwrap();
    assert_eq!(plan, Plan::Select(Box::new(csv_scan("/data/a.csv")), one(Expr::Column("x".to_string()))));
    assert_eq!(exports.len(), 1);
    let path = exports[0].file_path(&"/data".to_string(), &String::new());
    assert_eq!(path, "/data/./out/result.csv");
}

#[test]
fn run_without_exports_fails() {
    let config = Config {
        source: Loader { source: csv_source("/data/a.csv"), transforms: vec![] },
        transforms: vec![],
        exports: vec![],
    };
    assert!(matches!(config.run(), Err(Error::NoExports)));
}

#[test]
fn load_without_exports_succeeds() {
    let config = Config {
        source: Loader { source: csv_source("/data/a.csv"), transforms: vec![] },
        transforms: vec![],
        exports: vec![],
    };
    assert_eq!(config.load().unwrap(), csv_scan("/data/a.csv"));
}

#[test]
fn left_join_scenario() {
    let join = Join {
        right: Loader { source: csv_source("/data/b.csv"), transforms: vec![] },
        left_on: vec![col("id")],
        right_on: vec![col("key")],
        how: JoinType::Left,
    };
    let plan = join.transform(csv_scan("/data/a.csv")).unwrap();
    assert_eq!(
        plan,
        Plan::Join {
            left: Box::new(csv_scan("/data/a.csv")),
            right: Box::new(csv_scan("/data/b.csv")),
            left_on: one(Expr::Column("id".to_string())),
            right_on: one(Expr::Column("key".to_string())),
            how: JoinType::Left,
        }
    );
}

#[test]
fn loader_then_document_transforms_apply_in_order() {
    let config = Config {
        source: Loader {
            source: csv_source("/d/a.csv"),
            transforms: vec![TransformItem::Collect(Collect {})],
        },
        transforms: vec![
            TransformItem::SortBy(SortBy(vec![Sort { column: "x".to_string(), descending: true }])),
            TransformItem::DropDuplicates(DropDuplicates { subset: None, keep: DuplicateKeep::First }),
        ],
        exports: vec![],
    };
    assert_eq!(
        config.load().unwrap(),
        Plan::Unique {
            input: Box::new(Plan::Sort {
                input: Box::new(Plan::Collect(Box::new(csv_scan("/d/a.csv")))),
                by: vec![Sort { column: "x".to_string(), descending: true }],
            }),
            subset: None,
            keep: DuplicateKeep::First,
        }
    );
}

#[test]
fn nested_config_source_loads_its_own_pipeline() {
    let inner = Config {
        source: Loader { source: csv_source("/nested/dir/b.csv"), transforms: vec![] },
        transforms: vec![TransformItem::Collect(Collect {})],
        exports: vec![],
    };
    let outer = Config {
        source: Loader {
            source: SourceItem::Config(ConfigSource {
                path: CanonicalPath("/nested/dir/inner.toml".to_string()),
                config: Box::new(inner),
            }),
            transforms: vec![],
        },
        transforms: vec![],
        exports: vec![csv_export("out", "r", None)],
    };
    let (plan, _) = outer.run().unwrap();
    assert_eq!(plan, Plan::Collect(Box::new(csv_scan("/nested/dir/b.csv"))));
}

#[test]
fn filter_chains_apply_in_document_order() {
    let plan = Filter(vec![col("a"), col("b")]).transform(csv_scan("/a.csv")).unwrap();
    assert_eq!(
        plan,
        Plan::Filter(
            Box::new(Plan::Filter(Box::new(csv_scan("/a.csv")), Expr::Column("a".to_string()))),
            Expr::Column("b".to_string())
        )
    );
}

#[test]
fn extract_filters_first_when_asked() {
    let t = Extract {
        matcher: Match { column: "c".to_string(), pattern: "(?<n>\\d)".to_string() },
        filter: true,
    };
    let plan = t.transform(csv_scan("/a.csv")).unwrap();
    let matcher = Expr::Str(
        Box::new(Expr::Column("c".to_string())),
        StrFunction::Contains {
            pattern: Box::new(Expr::Literal(Value::Str("(?<n>\\d)".to_string()))),
            strict: true,
        },
    );
    assert_eq!(
        plan,
        Plan::ExtractGroups {
            input: Box::new(Plan::Filter(Box::new(csv_scan("/a.csv")), matcher)),
            column: "c".to_string(),
            pattern: "(?<n>\\d)".to_string(),
        }
    );
}

#[test]
fn set_column_keeps_all_columns() {
    let plan = SetColumn(col("a")).transform(csv_scan("/a.csv")).unwrap();
    assert_eq!(
        plan,
        Plan::Select(
            Box::new(csv_scan("/a.csv")),
            ExprList::Cons(Box::new(Expr::All), Box::new(one(Expr::Column("a".to_string()))))
        )
    );
}

#[test]
fn rename_and_concat() {
    let plan = Rename::Mapping(vec![("a".to_string(), "b".to_string())])
        .transform(csv_scan("/a.csv"))
        .unwrap();
    assert_eq!(
        plan,
        Plan::Rename {
            input: Box::new(csv_scan("/a.csv")),
            mapping: vec![("a".to_string(), "b".to_string())],
            strict: true,
        }
    );
    let args = UnionArgs { parallel: true, rechunk: false, to_supertypes: false, maintain_order: true };
    let c = Concat {
        loader: Loader { source: csv_source("/b.csv"), transforms: vec![] },
        how: ConcatType::Diagonal,
        args,
    };
    assert_eq!(
        c.transform(csv_scan("/a.csv")).unwrap(),
        Plan::Concat {
            first: Box::new(csv_scan("/a.csv")),
            second: Box::new(csv_scan("/b.csv")),
            mode: ConcatType::Diagonal,
            args,
        }
    );
    let drop = TransformItem::Drop(retl::transforms::Drop(Selector { names: vec!["z".to_string()], strict: true }));
    assert_eq!(
        drop.transform(csv_scan("/a.csv")).unwrap(),
        Plan::Drop(Box::new(csv_scan("/a.csv")), Selector { names: vec!["z".to_string()], strict: true })
    );
}

#[test]
fn csv_source_options() {
    let s = CsvSource {
        path: CanonicalPaths(vec!["/a.csv".to_string(), "/b.csv".to_string()]),
        separator: Some(Separator::try_from(';').unwrap()),
        has_header: Some(false),
        schema: None,
    };
    assert_eq!(
        s.load().unwrap(),
        Plan::Scan(Scan::Csv {
            paths: vec!["/a.csv".to_string(), "/b.csv".to_string()],
            separator: Some(b';'),
            has_header: false,
            truncate_ragged_lines: true,
            schema: None,
        })
    );
}

#[test]
fn separator_must_fit_in_a_byte() {
    assert_eq!(Separator::try_from(',').unwrap().0, 44);
    assert_eq!(Separator::try_from('\u{e9}').unwrap().0, 0xe9);
    assert!(matches!(Separator::try_from('\u{20ac}'), Err(Error::Other(_))));
}

#[test]
fn relative_paths_resolve_against_base() {
    assert_eq!(resolve_path(&"/root/cfg".to_string(), &"a.csv".to_string()), "/root/cfg/a.csv");
    assert_eq!(resolve_path(&"/root/cfg".to_string(), &"/abs/a.csv".to_string()), "/abs/a.csv");
    let nested = resolve_path(&"/root/cfg".to_string(), &"sub".to_string());
    assert_eq!(resolve_path(&nested, &"b.csv".to_string()), "/root/cfg/sub/b.csv");
}

#[test]
fn export_file_names() {
    let e = csv_export("out", "result", Some("%Y"));
    assert_eq!(e.file_name(&"2024".to_string()), "result2024.csv");
    assert_eq!(csv_export("out", "result", None).file_name(&"2024".to_string()), "result.csv");
    let nd = ExportItem::NdJson(NdJsonExport {
        folder: "/o".to_string(),
        name: "n".to_string(),
        date_format: None,
    });
    assert_eq!(nd.file_path(&"/base".to_string(), &String::new()), "/o/n.jsonl");
    assert_eq!(nd.write_mode(), WriteMode::NdJsonSink);
    let js = ExportItem::Json(JsonExport { folder: "o".to_string(), name: "j".to_string(), date_format: None });
    assert_eq!(js.file_name(&String::new()), "j.json");
    assert_eq!(js.write_mode(), WriteMode::JsonDocument);
    let eager = ExportItem::Csv(CsvExport {
        folder: "o".to_string(),
        name: "c".to_string(),
        date_format: None,
        sink: Some(false),
    });
    assert_eq!(eager.write_mode(), WriteMode::CsvCollect);
    assert_eq!(e.write_mode(), WriteMode::CsvSink);
}

#[test]
fn error_messages() {
    assert_eq!(Error::NoExports.message(), "must define at least one export");
    assert_eq!(Error::Other("boom".to_string()).message(), "boom");
}

#[test]
fn parent_directories() {
    assert_eq!(parent_directory(&"/a/b/c.toml".to_string()), "/a/b");
    assert_eq!(parent_directory(&"/c.toml".to_string()), "/");
    assert_eq!(parent_directory(&"c.toml".to_string()), ".");
    assert_eq!(parent_directory(&"/a/\u{e9}t\u{e9}/x".to_string()), "/a/\u{e9}t\u{e9}");
    let outer = "/root/cfg".to_string();
    let nested_file = resolve_path(&outer, &"sub/inner.toml".to_string());
    let nested_dir = parent_directory(&nested_file);
    assert_eq!(resolve_path(&nested_dir, &"b.csv".to_string()), "/root/cfg/sub/b.csv");
    assert_eq!(resolve_path(&outer, &"a.csv".to_string()), "/root/cfg/a.csv");
}

#[test]
fn config_source_directory() {
    let inner = Config {
        source: Loader { source: csv_source("/n/b.csv"), transforms: vec![] },
        transforms: vec![],
        exports: vec![],
    };
    let source = ConfigSource {
        path: CanonicalPath("/n/deeper/inner.toml".to_string()),
        config: Box::new(inner),
    };
    assert_eq!(source.directory(), "/n/deeper");
}
