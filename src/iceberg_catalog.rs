use vstd::prelude::*;
use crate::directory::Directory;
use crate::error::CatalogError;
use crate::glue::TableKind;

verus! {

/// A fixed in-memory table, known by name only.
#[derive(Debug)]
pub struct IcebergTable {
    pub name: String,
}

impl IcebergTable {
    pub fn try_new(table_name: &str) -> (r: Result<IcebergTable, CatalogError>)
        ensures
            r matches Ok(t) && t.name@ == table_name@,
    {
        Ok(IcebergTable { name: table_name.to_owned() })
    }

    pub fn table_type(&self) -> (r: TableKind)
        ensures
            r == TableKind::View,
    {
        TableKind::View
    }

    pub fn scan(&self, projection: Option<&Vec<usize>>, limit: Option<usize>) -> (r: Result<
        (),
        CatalogError,
    >)
        ensures
            r matches Err(CatalogError::NotImplemented(_)),
    {
        Err(CatalogError::NotImplemented(String::from_str("not implement")))
    }
}

/// Every entry of the directory is a table of the entry's name.
pub open spec fn tables_named_by_key(tables: Directory<IcebergTable>) -> bool {
    forall|i: int|
        0 <= i < tables.entries@.len() ==> (#[trigger] tables.entries@[i]).1.name@
            == tables.entries@[i].0@
}

/// A fixed in-memory schema of two tables.
#[derive(Debug)]
pub struct IcebergSchema {
    pub tables: Directory<IcebergTable>,
}

impl IcebergSchema {
    pub open spec fn wf(&self) -> bool {
        self.tables.wf()
    }

    /// The schema holding `table_1` and `table_2`, in that order.
    pub fn try_new() -> (r: Result<IcebergSchema, CatalogError>)
        ensures
            r matches Ok(s) && s.wf() && s.tables.names() == seq!["table_1"@, "table_2"@]
                && tables_named_by_key(s.tables),
    {
        let mut tables: Directory<IcebergTable> = Directory::new();
        let table_1 = match IcebergTable::try_new("table_1") {
            Ok(t) => t,
            Err(e) => return Err(e),
        };
        let table_2 = match IcebergTable::try_new("table_2") {
            Ok(t) => t,
            Err(e) => return Err(e),
        };
        proof {
            reveal_strlit("table_1");
            reveal_strlit("table_2");
        }
        let name_1 = table_1.name.clone();
        tables.insert(name_1, table_1);
        assert(tables.names() =~= seq!["table_1"@]);
        let name_2 = table_2.name.clone();
        assert(name_2@ != "table_1"@) by {
            assert(name_2@[6] != "table_1"@[6]);
        }
        assert(!tables.contains(name_2@)) by {
            if tables.contains(name_2@) {
                let i = choose|i: int| 0 <= i < tables.entries@.len() && tables.entries@[i].0@ == name_2@;
                assert(tables.names()[i] == name_2@);
            }
        }
        tables.insert(name_2, table_2);
        assert(tables.names() =~= seq!["table_1"@, "table_2"@]);
        Ok(IcebergSchema { tables })
    }

    pub fn table_names(&self) -> (r: Vec<String>)
        ensures
            r@.map_values(|s: String| s@) == self.tables.names(),
    {
        self.tables.names_vec()
    }

    pub fn table(&self, name: &str) -> (r: Option<&IcebergTable>)
        requires
            self.wf(),
        ensures
            self.tables.lookup_result(
                name@,
                match r {
                    Some(t) => Some(*t),
                    None => None,
                },
            ),
    {
        self.tables.get(name)
    }

    pub fn table_exist(&self, name: &str) -> (r: bool)
        ensures
            r == self.tables.contains(name@),
    {
        self.tables.contains_name(name)
    }
}

/// A fixed in-memory catalog of one schema, `db1`.
#[derive(Debug)]
pub struct IcebergCatalog {
    pub schemas: Directory<IcebergSchema>,
}

impl IcebergCatalog {
    pub open spec fn wf(&self) -> bool {
        self.schemas.wf()
    }

    /// The catalog whose one schema, `db1`, holds `table_1` and `table_2`.
    pub fn try_new() -> (r: Result<IcebergCatalog, CatalogError>)
        ensures
            r matches Ok(c) && c.wf() && c.schemas.names() == seq!["db1"@]
                && c.schemas.entries@[0].1.wf()
                && c.schemas.entries@[0].1.tables.names() == seq!["table_1"@, "table_2"@]
                && tables_named_by_key(c.schemas.entries@[0].1.tables),
    {
        let mut schemas: Directory<IcebergSchema> = Directory::new();
        let schema = match IcebergSchema::try_new() {
            Ok(s) => s,
            Err(e) => return Err(e),
        };
        let ghost built = schema;
        let name = String::from_str("db1");
        let ghost name_view = name@;
        schemas.insert(name, schema);
        assert(schemas.names() =~= seq!["db1"@]);
        assert(schemas.entries@.len() == schemas.names().len());
        assert(schemas.names()[0] == schemas.entries@[0].0@);
        assert(schemas.entries@[0].0@ == name_view);
        assert(schemas.entries@[0].1 == built);
        Ok(IcebergCatalog { schemas })
    }

    pub fn schema_names(&self) -> (r: Vec<String>)
        ensures
            r@.map_values(|s: String| s@) == self.schemas.names(),
    {
        self.schemas.names_vec()
    }

    pub fn schema(&self, name: &str) -> (r: Option<&IcebergSchema>)
        requires
            self.wf(),
        ensures
            self.schemas.lookup_result(
                name@,
                match r {
                    Some(s) => Some(*s),
                    None => None,
                },
            ),
    {
        self.schemas.get(name)
    }
}

} // verus!
