use vstd::prelude::*;
use crate::catalog_config::{DobbyCatalogConfig, GlueCatalogConfig};
use crate::directory::{
    built_from, collect_outcomes, failures_of, first_success_order, replaced_names, BuildReport,
    Directory,
};
use crate::error::CatalogError;
use crate::table_format::{
    copy_schema, declared_metadata_location, deduce_table_format, keys_unique, parameters_view,
    properties_view, schema_view, ColumnField, ExternalIcebergTable, ExternalTable,
    ExternalTableFormat, TableIdentifier,
};

verus! {

/// Whether a table holds data of its own or is defined by a query.
#[derive(Debug, Clone, Copy, PartialEq, Eq, Structural)]
pub enum TableKind {
    Base,
    View,
}

/// A table as the metastore lists it: its name and its raw properties.
#[derive(Debug)]
pub struct GlueTableRecord {
    pub name: String,
    pub parameters: Option<Vec<(String, String)>>,
}

/// Everything needed to open a table's snapshot: where its metadata lives
/// and the storage properties of its I/O context.
#[derive(Debug)]
pub struct TableOpenPlan {
    pub table_identifier: TableIdentifier,
    pub table_format: ExternalTableFormat,
    pub table_location: String,
    pub file_io_properties: Vec<(String, String)>,
}

/// A federated table: read-only, with the schema of the snapshot it was
/// opened from.
#[derive(Debug)]
pub struct GlueTable {
    pub table_identifier: TableIdentifier,
    pub table_location: String,
    pub schema: Vec<ColumnField>,
    pub table_type: TableKind,
    pub external_table: ExternalTable,
}

impl GlueTableRecord {
    /// The properties, when present, are a map: no key twice.
    pub open spec fn wf(&self) -> bool {
        self.parameters matches Some(p) ==> keys_unique(properties_view(p@))
    }
}

impl TableOpenPlan {
    /// The storage properties are a map: no key twice.
    pub open spec fn wf(&self) -> bool {
        keys_unique(properties_view(self.file_io_properties@))
    }
}

impl GlueTable {
    /// Decides how to open a listed table: its format and locator come from
    /// its properties, its I/O properties from the catalog's configuration.
    pub fn plan_open(
        table_identifier: TableIdentifier,
        parameters: &Option<Vec<(String, String)>>,
        catalog_config: &GlueCatalogConfig,
    ) -> (r: Result<TableOpenPlan, CatalogError>)
        ensures
            match declared_metadata_location(parameters_view(parameters)) {
                Some(loc) => r matches Ok(p) && p.table_identifier == table_identifier
                    && p.table_format == ExternalTableFormat::Iceberg && p.table_location@ == loc
                    && properties_view(p.file_io_properties@) == catalog_config.file_io_parameters()
                    && p.wf(),
                None => r == Err::<TableOpenPlan, CatalogError>(CatalogError::UndeterminedFormat),
            },
    {
        let (table_format, table_location) = match deduce_table_format(parameters) {
            Ok(found) => found,
            Err(e) => return Err(e),
        };
        match table_format {
            ExternalTableFormat::Iceberg => {
                let file_io_properties = catalog_config.build_iceberg_file_io_parameters();
                proof {
                    crate::catalog_config::lemma_file_io_keys_unique(catalog_config);
                }
                Ok(TableOpenPlan { table_identifier, table_format, table_location, file_io_properties })
            },
            ExternalTableFormat::Hive => Err(
                CatalogError::NotImplemented(String::from_str("not yet implemented")),
            ),
        }
    }

    /// The table opened from a plan, given the current schema that its
    /// snapshot declares.
    pub fn from_snapshot(plan: TableOpenPlan, current_schema: Vec<ColumnField>) -> (r: GlueTable)
        requires
            plan.table_format == ExternalTableFormat::Iceberg,
        ensures
            schema_view(r.schema@) == schema_view(current_schema@),
            r.table_type == TableKind::Base,
            r.table_location@ == plan.table_location@,
            r.table_identifier == plan.table_identifier,
            r.external_table matches ExternalTable::Iceberg(t) && t.metadata_location@
                == plan.table_location@ && schema_view(t.current_schema@) == schema_view(
                current_schema@,
            ),
    {
        let TableOpenPlan { table_identifier, table_format: _, table_location, file_io_properties: _ } =
            plan;
        let schema = copy_schema(&current_schema);
        let snapshot_identifier = TableIdentifier {
            namespace: copy_names(&table_identifier.namespace),
            name: table_identifier.name.clone(),
        };
        let external = ExternalIcebergTable {
            table_identifier: snapshot_identifier,
            metadata_location: table_location.clone(),
            current_schema,
        };
        GlueTable {
            table_identifier,
            table_location,
            schema,
            table_type: TableKind::Base,
            external_table: ExternalTable::Iceberg(external),
        }
    }

    /// The table's column schema.
    pub fn schema(&self) -> (r: &Vec<ColumnField>)
        ensures
            r@ == self.schema@,
    {
        &self.schema
    }

    pub fn table_type(&self) -> (r: TableKind)
        ensures
            r == self.table_type,
    {
        self.table_type
    }

    /// Scanning a federated table belongs to the query engine: this layer
    /// never produces a plan.
    pub fn scan(&self, projection: Option<&Vec<usize>>, limit: Option<usize>) -> (r: Result<
        (),
        CatalogError,
    >)
        ensures
            r matches Err(CatalogError::NotImplemented(_)),
    {
        Err(CatalogError::NotImplemented(String::from_str("not impl")))
    }
}

/// A copy of a list of names.
pub fn copy_names(names: &Vec<String>) -> (r: Vec<String>)
    ensures
        r@ == names@,
{
    let mut out: Vec<String> = Vec::new();
    let mut i: usize = 0;
    while i < names.len()
        invariant
            i <= names@.len(),
            out@ == names@.take(i as int),
        decreases names@.len() - i,
    {
        out.push(names[i].clone());
        assert(out@ =~= names@.take(i + 1));
        i = i + 1;
    }
    assert(names@.take(i as int) =~= names@);
    out
}

/// A namespace of a Glue catalog and the tables that could be opened in it.
#[derive(Debug)]
pub struct GlueDatabase {
    pub database_name: String,
    pub tables: Directory<GlueTable>,
}

impl GlueDatabase {
    pub open spec fn wf(&self) -> bool {
        self.tables.wf()
    }

    /// Builds a namespace from the outcome of opening each of its listed
    /// tables. The tables that opened are published in listing order, a name
    /// that opened more than once keeping its last table; the report holds
    /// each table that failed, with its error, and each name whose table was
    /// replaced by a later one.
    pub fn from_outcomes(database_name: &str, outcomes: Vec<(String, Result<GlueTable, CatalogError>)>) -> (r: (
        GlueDatabase,
        BuildReport<CatalogError>,
    ))
        ensures
            r.0.database_name@ == database_name@,
            r.0.wf(),
            built_from(r.0.tables, outcomes@, outcomes@.len() as int),
            r.0.tables.names() == first_success_order(outcomes@),
            r.1.failures@.map_values(|f: (String, CatalogError)| (f.0@, f.1)) == failures_of(outcomes@),
            r.1.replaced@.map_values(|s: String| s@) == replaced_names(outcomes@),
    {
        let (tables, report) = collect_outcomes(outcomes);
        (GlueDatabase { database_name: database_name.to_owned(), tables }, report)
    }

    /// The names of the published tables.
    pub fn table_names(&self) -> (r: Vec<String>)
        ensures
            r@.map_values(|s: String| s@) == self.tables.names(),
    {
        self.tables.names_vec()
    }

    pub fn table(&self, name: &str) -> (r: Option<&GlueTable>)
        requires
            self.wf(),
        ensures
            self.tables.lookup_result(
                name@,
                match r {
                    Some(t) => Some(*t),
                    None => None,
                },
            ),
    {
        self.tables.get(name)
    }

    pub fn table_exist(&self, name: &str) -> (r: bool)
        ensures
            r == self.tables.contains(name@),
    {
        self.tables.contains_name(name)
    }
}

/// A Glue catalog: its configuration and the namespaces that could be built.
#[derive(Debug)]
pub struct GlueCatalog {
    pub config: GlueCatalogConfig,
    pub databases: Directory<GlueDatabase>,
}

impl GlueCatalog {
    pub open spec fn wf(&self) -> bool {
        self.databases.wf()
    }

    /// Builds a catalog from the outcome of building each of its listed
    /// namespaces, with the same policy as a namespace applies to its tables.
    pub fn from_outcomes(
        config: GlueCatalogConfig,
        outcomes: Vec<(String, Result<GlueDatabase, CatalogError>)>,
    ) -> (r: (GlueCatalog, BuildReport<CatalogError>))
        ensures
            r.0.config == config,
            r.0.wf(),
            built_from(r.0.databases, outcomes@, outcomes@.len() as int),
            r.0.databases.names() == first_success_order(outcomes@),
            r.1.failures@.map_values(|f: (String, CatalogError)| (f.0@, f.1)) == failures_of(outcomes@),
            r.1.replaced@.map_values(|s: String| s@) == replaced_names(outcomes@),
    {
        let (databases, report) = collect_outcomes(outcomes);
        (GlueCatalog { config, databases }, report)
    }

    pub fn name(&self) -> (r: &String)
        ensures
            r@ == self.config.name@,
    {
        &self.config.name
    }

    /// The names of the published namespaces.
    pub fn schema_names(&self) -> (r: Vec<String>)
        ensures
            r@.map_values(|s: String| s@) == self.databases.names(),
    {
        self.databases.names_vec()
    }

    pub fn schema(&self, name: &str) -> (r: Option<&GlueDatabase>)
        requires
            self.wf(),
        ensures
            self.databases.lookup_result(
                name@,
                match r {
                    Some(d) => Some(*d),
                    None => None,
                },
            ),
    {
        self.databases.get(name)
    }
}

} // verus!
