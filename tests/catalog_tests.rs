use dobbydb_catalog::catalog::{DobbyCatalogManager, LoadState};
use dobbydb_catalog::catalog_config::{check_catalog_configs, DobbyCatalogConfig, GlueCatalogConfig};
use dobbydb_catalog::error::{CatalogError, DobbyDBError};
use dobbydb_catalog::glue::{GlueCatalog, GlueDatabase, GlueTable, GlueTableRecord, TableKind};
use dobbydb_catalog::iceberg_catalog::{IcebergCatalog, IcebergSchema, IcebergTable};
use dobbydb_catalog::listing::{ListingPage, PageCursor};
use dobbydb_catalog::glue::TableOpenPlan;
use dobbydb_catalog::table_format::{
    deduce_table_format, ColumnField, ExternalIcebergTable, ExternalTable, ExternalTableFormat,
    TableIdentifier,
};

fn config(name: &str) -> GlueCatalogConfig {
    GlueCatalogConfig {
        name: name.to_string(),
        aws_glue_region: Some("us-east-1".to_string()),
        aws_glue_access_key: Some("glue-access".to_string()),
        aws_glue_secret_key: Some("glue-secret".to_string()),
        aws_s3_region: Some("us-west-2".to_string()),
        aws_s3_access_key: Some("s3-access".to_string()),
        aws_s3_secret_key: Some("s3-secret".to_string()),
    }
}

fn props(pairs: &[(&str, &str)]) -> Option<Vec<(String, String)>> {
    Some(pairs.iter().map(|(k, v)| (k.to_string(), v.to_string())).collect())
}

fn field(name: &str, data_type: &str, nullable: bool) -> ColumnField {
    ColumnField { name: name.to_string(), data_type: data_type.to_string(), nullable }
}

fn open_table(db: &str, name: &str, location: &str, cfg: &GlueCatalogConfig) -> GlueTable {
    let plan = GlueTable::plan_open(
        TableIdentifier::new(db, name),
        &props(&[("metadata_location", location), ("table_type", "ICEBERG")]),
        cfg,
    )
    .unwrap();
    GlueTable::from_snapshot(plan, vec![field("id", "long", false), field("v", "string", true)])
}

#[test]
fn configs_without_duplicates_are_kept_in_order() {
    let r = check_catalog_configs(vec![config("a"), config("b"), config("c")]).unwrap();
    let names: Vec<String> = r.iter().map(|c| c.name.clone()).collect();
    assert_eq!(names, vec!["a", "b", "c"]);
}

#[test]
fn empty_config_is_accepted() {
    assert_eq!(check_catalog_configs(vec![]).unwrap().len(), 0);
}

#[test]
fn duplicate_config_name_rejects_everything() {
    let r = check_catalog_configs(vec![config("a"), config("b"), config("a"), config("b")]);
    assert_eq!(r.unwrap_err(), CatalogError::DuplicateCatalogName("a".to_string()));
}

#[test]
fn first_repeated_name_is_reported() {
    let r = check_catalog_configs(vec![config("x"), config("y"), config("y"), config("x")]);
    assert_eq!(r.unwrap_err(), CatalogError::DuplicateCatalogName("y".to_string()));
}

#[test]
fn metadata_location_selects_iceberg() {
    let r = deduce_table_format(&props(&[("owner", "x"), ("metadata_location", "s3://b/t/m.json")]));
    assert_eq!(r.unwrap(), (ExternalTableFormat::Iceberg, "s3://b/t/m.json".to_string()));
}

#[test]
fn missing_metadata_location_is_undetermined() {
    let r = deduce_table_format(&props(&[("table_type", "ICEBERG")]));
    assert_eq!(r.unwrap_err(), CatalogError::UndeterminedFormat);
}

#[test]
fn empty_or_absent_properties_are_undetermined() {
    assert_eq!(deduce_table_format(&props(&[])).unwrap_err(), CatalogError::UndeterminedFormat);
    assert_eq!(deduce_table_format(&None).unwrap_err(), CatalogError::UndeterminedFormat);
}

#[test]
fn file_io_parameters_carry_the_s3_settings() {
    let p = config("c").build_iceberg_file_io_parameters();
    assert_eq!(
        p,
        vec![
            ("s3.region".to_string(), "us-west-2".to_string()),
            ("s3.access-key-id".to_string(), "s3-access".to_string()),
            ("s3.secret-access-key".to_string(), "s3-secret".to_string()),
        ]
    );
}

#[test]
fn file_io_parameters_skip_unset_settings() {
    let mut c = config("c");
    c.aws_s3_region = None;
    c.aws_s3_secret_key = None;
    let p = c.build_iceberg_file_io_parameters();
    assert_eq!(p, vec![("s3.access-key-id".to_string(), "s3-access".to_string())]);
}

#[test]
fn plan_uses_locator_and_catalog_io_properties() {
    let cfg = config("c");
    let plan = GlueTable::plan_open(
        TableIdentifier::new("db1", "t1"),
        &props(&[("metadata_location", "s3://b/t1/v3.metadata.json")]),
        &cfg,
    )
    .unwrap();
    assert_eq!(plan.table_format, ExternalTableFormat::Iceberg);
    assert_eq!(plan.table_location, "s3://b/t1/v3.metadata.json");
    assert_eq!(plan.table_identifier.namespace, vec!["db1".to_string()]);
    assert_eq!(plan.table_identifier.name, "t1");
    assert_eq!(plan.file_io_properties, cfg.build_iceberg_file_io_parameters());
}

#[test]
fn plan_fails_without_locator() {
    let r = GlueTable::plan_open(TableIdentifier::new("db1", "t1"), &None, &config("c"));
    assert_eq!(r.unwrap_err(), CatalogError::UndeterminedFormat);
}

#[test]
fn snapshot_schema_is_kept_field_for_field() {
    let t = open_table("db1", "t1", "s3://b/t1/m.json", &config("c"));
    let got: Vec<(String, String, bool)> =
        t.schema().iter().map(|f| (f.name.clone(), f.data_type.clone(), f.nullable)).collect();
    assert_eq!(
        got,
        vec![("id".to_string(), "long".to_string(), false), ("v".to_string(), "string".to_string(), true)]
    );
    assert_eq!(t.table_type(), TableKind::Base);
    assert_eq!(t.table_location, "s3://b/t1/m.json");
    match &t.external_table {
        ExternalTable::Iceberg(i) => {
            assert_eq!(i.metadata_location, "s3://b/t1/m.json");
            assert_eq!(i.current_schema.len(), 2);
        }
        ExternalTable::Hive(_) => panic!("expected an Iceberg table"),
    }
}

#[test]
fn scan_is_not_implemented() {
    let t = open_table("db1", "t1", "s3://b/t1/m.json", &config("c"));
    assert!(matches!(t.scan(None, Some(10)), Err(CatalogError::NotImplemented(_))));
}

#[test]
fn schema_keeps_tables_that_opened() {
    let cfg = config("c");
    let outcomes = vec![
        ("A".to_string(), Ok(open_table("db", "A", "s3://b/a.json", &cfg))),
        (
            "B".to_string(),
            GlueTable::plan_open(TableIdentifier::new("db", "B"), &props(&[("owner", "x")]), &cfg)
                .map(|p| GlueTable::from_snapshot(p, vec![])),
        ),
        ("C".to_string(), Ok(open_table("db", "C", "s3://b/c.json", &cfg))),
    ];
    let (db, report) = GlueDatabase::from_outcomes("db", outcomes);
    assert_eq!(db.table_names(), vec!["A".to_string(), "C".to_string()]);
    assert_eq!(report.failures, vec![("B".to_string(), CatalogError::UndeterminedFormat)]);
    assert!(report.replaced.is_empty());
    assert!(db.table_exist("A"));
    assert!(!db.table_exist("B"));
    assert!(db.table("B").is_none());
    assert_eq!(db.table("C").unwrap().table_location, "s3://b/c.json");
    assert_eq!(db.database_name, "db");
}

#[test]
fn repeated_table_name_keeps_last_success() {
    let cfg = config("c");
    let outcomes = vec![
        ("T".to_string(), Ok(open_table("db", "T", "s3://b/first.json", &cfg))),
        ("T".to_string(), Ok(open_table("db", "T", "s3://b/second.json", &cfg))),
        ("T".to_string(), Err(CatalogError::SnapshotOpenError("gone".to_string()))),
    ];
    let (db, report) = GlueDatabase::from_outcomes("db", outcomes);
    assert_eq!(db.table_names(), vec!["T".to_string()]);
    assert_eq!(db.table("T").unwrap().table_location, "s3://b/second.json");
    assert_eq!(report.failures.len(), 1);
    assert_eq!(report.replaced, vec!["T".to_string()]);
}

#[test]
fn catalog_leaves_out_failed_namespaces() {
    let outcomes = vec![
        ("db1".to_string(), Ok(GlueDatabase::from_outcomes("db1", vec![]).0)),
        ("db2".to_string(), Err(CatalogError::PartialListing)),
    ];
    let (cat, report) = GlueCatalog::from_outcomes(config("c1"), outcomes);
    assert_eq!(cat.schema_names(), vec!["db1".to_string()]);
    assert!(cat.schema("db2").is_none());
    assert_eq!(report.failures, vec![("db2".to_string(), CatalogError::PartialListing)]);
    assert_eq!(cat.name(), "c1");
}

#[test]
fn listing_follows_pages_to_the_end() {
    let mut cursor: PageCursor<u32> = PageCursor::new();
    let next = cursor.accept(ListingPage { items: vec![1, 2], next_token: Some("p2".to_string()) });
    assert_eq!(next, Some("p2".to_string()));
    assert!(!cursor.is_complete());
    let next = cursor.accept(ListingPage { items: vec![3], next_token: None });
    assert_eq!(next, None);
    assert_eq!(cursor.finish().unwrap(), vec![1, 2, 3]);
}

#[test]
fn interrupted_listing_is_partial() {
    let mut cursor: PageCursor<u32> = PageCursor::new();
    cursor.accept(ListingPage { items: vec![1], next_token: Some("p2".to_string()) });
    assert_eq!(cursor.finish().unwrap_err(), CatalogError::PartialListing);
    let empty: PageCursor<u32> = PageCursor::new();
    assert_eq!(empty.finish().unwrap_err(), CatalogError::PartialListing);
}

#[test]
fn listing_that_never_started_reports_its_cause() {
    let cursor: PageCursor<u32> = PageCursor::new();
    let cause = CatalogError::CatalogUnavailable("auth".to_string());
    assert_eq!(cursor.interrupted(cause.clone()), cause);
    let mut cursor: PageCursor<u32> = PageCursor::new();
    cursor.accept(ListingPage { items: vec![7], next_token: Some("p2".to_string()) });
    assert_eq!(cursor.interrupted(cause), CatalogError::PartialListing);
}

#[test]
fn end_to_end_single_catalog() {
    let mut manager = DobbyCatalogManager::new();
    let configs = manager.begin_load(Ok(vec![config("c1")])).unwrap();
    assert_eq!(manager.state, LoadState::Loading);

    let mut ns_cursor: PageCursor<String> = PageCursor::new();
    ns_cursor.accept(ListingPage { items: vec!["db1".to_string()], next_token: None });
    let namespaces = ns_cursor.finish().unwrap();

    let mut outcomes = Vec::new();
    for cfg in configs {
        let mut schema_outcomes = Vec::new();
        for ns in &namespaces {
            let mut t_cursor: PageCursor<GlueTableRecord> = PageCursor::new();
            t_cursor.accept(ListingPage {
                items: vec![GlueTableRecord {
                    name: "t1".to_string(),
                    parameters: props(&[("metadata_location", "s3://w/t1/m.json")]),
                }],
                next_token: None,
            });
            let mut table_outcomes = Vec::new();
            for record in t_cursor.finish().unwrap() {
                let id = TableIdentifier::new(ns, &record.name);
                let plan = GlueTable::plan_open(id, &record.parameters, &cfg);
                let table = plan.map(|p| GlueTable::from_snapshot(p, vec![field("id", "int", false)]));
                table_outcomes.push((record.name, table));
            }
            let (db, report) = GlueDatabase::from_outcomes(ns, table_outcomes);
            assert!(report.failures.is_empty());
            schema_outcomes.push((ns.clone(), Ok(db)));
        }
        let (catalog, report) = GlueCatalog::from_outcomes(cfg, schema_outcomes);
        assert!(report.failures.is_empty());
        outcomes.push(Ok(catalog));
    }
    let failures = manager.finish_load(outcomes);
    assert!(failures.is_empty());
    assert_eq!(manager.state, LoadState::Ready);

    assert_eq!(manager.catalog_names(), vec!["c1".to_string()]);
    let c1 = manager.catalog("c1").unwrap();
    assert_eq!(c1.schema_names(), vec!["db1".to_string()]);
    let db1 = c1.schema("db1").unwrap();
    assert_eq!(db1.table_names(), vec!["t1".to_string()]);
    let t1 = db1.table("t1").unwrap();
    assert!(matches!(t1.scan(None, None), Err(CatalogError::NotImplemented(_))));
}

#[test]
fn duplicate_catalog_names_fail_init() {
    let mut manager = DobbyCatalogManager::new();
    let r = manager.begin_load(Ok(vec![config("same"), config("same")]));
    assert_eq!(r.unwrap_err(), CatalogError::DuplicateCatalogName("same".to_string()));
    assert_eq!(manager.state, LoadState::Failed);
    assert!(manager.catalog_names().is_empty());
}

#[test]
fn unreadable_config_fails_init() {
    let mut manager = DobbyCatalogManager::new();
    let r = manager.begin_load(Err(CatalogError::ConfigUnreadable("no such file".to_string())));
    assert_eq!(r.unwrap_err(), CatalogError::ConfigUnreadable("no such file".to_string()));
    assert_eq!(manager.state, LoadState::Failed);
    assert!(manager.catalog_names().is_empty());
}

#[test]
fn failed_catalog_is_absent_but_others_load() {
    let mut manager = DobbyCatalogManager::new();
    let configs = manager.begin_load(Ok(vec![config("c1"), config("c2")])).unwrap();
    let mut outcomes = Vec::new();
    for cfg in configs {
        if cfg.name == "c1" {
            outcomes.push(Err(CatalogError::CatalogUnavailable("access denied".to_string())));
        } else {
            outcomes.push(Ok(GlueCatalog::from_outcomes(cfg, vec![]).0));
        }
    }
    let failures = manager.finish_load(outcomes);
    assert_eq!(
        failures,
        vec![("c1".to_string(), CatalogError::CatalogUnavailable("access denied".to_string()))]
    );
    assert_eq!(manager.catalog_names(), vec!["c2".to_string()]);
    assert!(manager.catalog("c1").is_none());
}

#[test]
fn lookup_twice_gives_the_same_catalog() {
    let mut manager = DobbyCatalogManager::new();
    let configs = manager.begin_load(Ok(vec![config("c1")])).unwrap();
    let outcomes = configs.into_iter().map(|c| Ok(GlueCatalog::from_outcomes(c, vec![]).0)).collect();
    manager.finish_load(outcomes);
    let first = manager.catalog("c1").unwrap();
    let second = manager.catalog("c1").unwrap();
    assert!(std::ptr::eq(first, second));
    assert_eq!(first.name(), second.name());
    assert!(manager.catalog("missing").is_none());
    assert!(manager.catalog("missing").is_none());
}

#[test]
fn registering_after_load_is_refused() {
    let manager = DobbyCatalogManager::new();
    let r = manager.register_catalog("x".to_string(), GlueCatalog::from_outcomes(config("x"), vec![]).0);
    assert!(r.is_none());
    assert!(manager.catalog_names().is_empty());
}

#[test]
fn invalid_argument_message() {
    let e = DobbyDBError::InvalidArgument("bad path".to_string());
    assert_eq!(e.message(), "invalid argument: bad path");
}

#[test]
fn table_identifier_has_one_level_namespace() {
    let id = TableIdentifier::new("db1", "t1");
    assert_eq!(id.namespace, vec!["db1".to_string()]);
    assert_eq!(id.name, "t1");
}

#[test]
fn fixed_schema_holds_two_tables() {
    let s = IcebergSchema::try_new().unwrap();
    assert_eq!(s.table_names(), vec!["table_1".to_string(), "table_2".to_string()]);
    assert!(s.table_exist("table_2"));
    assert_eq!(s.table("table_1").unwrap().name, "table_1");
    assert!(s.table("table_3").is_none());
}

#[test]
fn fixed_catalog_holds_db1() {
    let c = IcebergCatalog::try_new().unwrap();
    assert_eq!(c.schema_names(), vec!["db1".to_string()]);
    assert!(c.schema("db1").is_some());
}

#[test]
fn fixed_table_is_a_view() {
    let t = IcebergTable::try_new("t").unwrap();
    assert_eq!(t.name, "t");
    assert_eq!(t.table_type(), TableKind::View);
    assert!(matches!(t.scan(None, None), Err(CatalogError::NotImplemented(_))));
}

fn plan_at(location: &str, namespace: Vec<String>) -> TableOpenPlan {
    TableOpenPlan {
        table_identifier: TableIdentifier { namespace, name: "t1".to_string() },
        table_format: ExternalTableFormat::Iceberg,
        table_location: location.to_string(),
        file_io_properties: config("c").build_iceberg_file_io_parameters(),
    }
}

#[test]
fn snapshot_source_keeps_locator_and_identifier() {
    let plan = plan_at("s3://bucket/t1/metadata/v1.metadata.json", vec!["db1".to_string()]);
    let source = ExternalIcebergTable::prepare_open(&plan, Ok(())).unwrap();
    assert_eq!(source.metadata_location, "s3://bucket/t1/metadata/v1.metadata.json");
    assert_eq!(source.table_identifier.namespace, vec!["db1".to_string()]);
    assert_eq!(source.table_identifier.name, "t1");
    assert_eq!(source.table_ident.name, "t1");
    assert_eq!(source.table_ident.namespace.as_ref(), &vec!["db1".to_string()]);
}

#[test]
fn failed_storage_context_is_a_storage_error() {
    let plan = plan_at("nosuchscheme://bucket/m.json", vec!["db1".to_string()]);
    let r = ExternalIcebergTable::prepare_open(&plan, Err("unsupported scheme".to_string()));
    assert_eq!(r.unwrap_err(), CatalogError::StorageConfigError("unsupported scheme".to_string()));
}

#[test]
fn storage_error_comes_before_the_namespace_check() {
    let plan = plan_at("s3://bucket/m.json", vec![]);
    let r = ExternalIcebergTable::prepare_open(&plan, Err("no region".to_string()));
    assert_eq!(r.unwrap_err(), CatalogError::StorageConfigError("no region".to_string()));
}

#[test]
fn empty_namespace_cannot_name_a_snapshot_table() {
    let plan = plan_at("s3://bucket/t1/metadata/v1.metadata.json", vec![]);
    let r = ExternalIcebergTable::prepare_open(&plan, Ok(()));
    assert!(matches!(r, Err(CatalogError::SnapshotOpenError(_))));
}

#[test]
fn glue_credentials_need_both_keys() {
    assert_eq!(
        config("c").glue_credentials(),
        Some(("glue-access".to_string(), "glue-secret".to_string()))
    );
    let mut c = config("c");
    c.aws_glue_secret_key = None;
    assert_eq!(c.glue_credentials(), None);
    let mut c = config("c");
    c.aws_glue_access_key = None;
    assert_eq!(c.glue_credentials(), None);
}

#[test]
fn second_load_is_refused_and_changes_nothing() {
    let mut manager = DobbyCatalogManager::new();
    let configs = manager.begin_load(Ok(vec![config("c1")])).unwrap();
    let outcomes = configs.into_iter().map(|c| Ok(GlueCatalog::from_outcomes(c, vec![]).0)).collect();
    manager.finish_load(outcomes);
    let r = manager.begin_load(Ok(vec![config("c2")]));
    assert_eq!(r.unwrap_err(), CatalogError::AlreadyLoaded);
    assert_eq!(manager.state, LoadState::Ready);
    assert_eq!(manager.catalog_names(), vec!["c1".to_string()]);
}

#[test]
fn catalogs_keep_configuration_order() {
    let names = ["zeta", "alpha", "mid", "beta"];
    let mut seen = Vec::new();
    for _ in 0..2 {
        let mut manager = DobbyCatalogManager::new();
        let configs = manager.begin_load(Ok(names.iter().map(|n| config(n)).collect())).unwrap();
        let outcomes =
            configs.into_iter().map(|c| Ok(GlueCatalog::from_outcomes(c, vec![]).0)).collect();
        manager.finish_load(outcomes);
        seen.push(manager.catalog_names());
    }
    assert_eq!(seen[0], vec!["zeta", "alpha", "mid", "beta"]);
    assert_eq!(seen[0], seen[1]);
}

#[test]
fn table_order_is_first_success_order() {
    let cfg = config("c");
    let outcomes = vec![
        ("B".to_string(), Err(CatalogError::UndeterminedFormat)),
        ("C".to_string(), Ok(open_table("db", "C", "s3://b/c1.json", &cfg))),
        ("A".to_string(), Ok(open_table("db", "A", "s3://b/a.json", &cfg))),
        ("B".to_string(), Ok(open_table("db", "B", "s3://b/b.json", &cfg))),
        ("C".to_string(), Ok(open_table("db", "C", "s3://b/c2.json", &cfg))),
    ];
    let (db, report) = GlueDatabase::from_outcomes("db", outcomes);
    assert_eq!(db.table_names(), vec!["C".to_string(), "A".to_string(), "B".to_string()]);
    assert_eq!(db.table("C").unwrap().table_location, "s3://b/c2.json");
    assert_eq!(report.replaced, vec!["C".to_string()]);
    assert_eq!(report.failures, vec![("B".to_string(), CatalogError::UndeterminedFormat)]);
}

#[test]
fn fixed_catalog_schema_holds_both_tables() {
    let c = IcebergCatalog::try_new().unwrap();
    let db1 = c.schema("db1").unwrap();
    assert_eq!(db1.table_names(), vec!["table_1".to_string(), "table_2".to_string()]);
}
