use vstd::prelude::*;
use crate::error::CatalogError;

verus! {

/// Identifies a table by its namespace path and its name.
#[derive(Debug)]
pub struct TableIdentifier {
    pub namespace: Vec<String>,
    pub name: String,
}

impl TableIdentifier {
    /// The identifier of table `tbl_name` in the one-level namespace `db_name`.
    pub fn new(db_name: &str, tbl_name: &str) -> (r: Self)
        ensures
            r.namespace@.len() == 1,
            r.namespace@[0]@ == db_name@,
            r.name@ == tbl_name@,
    {
        let mut namespace: Vec<String> = Vec::new();
        namespace.push(db_name.to_owned());
        TableIdentifier { namespace, name: tbl_name.to_owned() }
    }
}

/// The on-disk formats a federated table can use.
#[derive(Debug, Clone, Copy, PartialEq, Eq, Structural)]
pub enum ExternalTableFormat {
    Hive,
    Iceberg,
}

/// One column of a table schema.
#[derive(Debug)]
pub struct ColumnField {
    pub name: String,
    pub data_type: String,
    pub nullable: bool,
}

impl View for ColumnField {
    type V = (Seq<char>, Seq<char>, bool);

    open spec fn view(&self) -> (Seq<char>, Seq<char>, bool) {
        (self.name@, self.data_type@, self.nullable)
    }
}

/// The column-by-column view of a schema, in declared order.
pub open spec fn schema_view(fields: Seq<ColumnField>) -> Seq<(Seq<char>, Seq<char>, bool)> {
    fields.map_values(|f: ColumnField| f@)
}

impl ColumnField {
    /// A copy of the column.
    pub fn copy_field(&self) -> (r: ColumnField)
        ensures
            r@ == self@,
    {
        ColumnField { name: self.name.clone(), data_type: self.data_type.clone(), nullable: self.nullable }
    }
}

/// A copy of a schema, column for column.
pub fn copy_schema(fields: &Vec<ColumnField>) -> (r: Vec<ColumnField>)
    ensures
        schema_view(r@) == schema_view(fields@),
{
    let mut out: Vec<ColumnField> = Vec::new();
    let mut i: usize = 0;
    while i < fields.len()
        invariant
            i <= fields@.len(),
            out@.len() == i,
            forall|k: int| 0 <= k < i ==> (#[trigger] out@[k])@ == fields@[k]@,
        decreases fields@.len() - i,
    {
        out.push(fields[i].copy_field());
        i = i + 1;
    }
    assert(schema_view(out@) =~= schema_view(fields@));
    out
}

/// Table of the Hive layout; no reader for it exists yet.
#[derive(Debug)]
pub struct ExternalHiveTable {}

/// A table read from an Iceberg snapshot: the location of its metadata file
/// and the current schema that the snapshot declares.
#[derive(Debug)]
pub struct ExternalIcebergTable {
    pub table_identifier: TableIdentifier,
    pub metadata_location: String,
    pub current_schema: Vec<ColumnField>,
}

/// A table in one of the supported formats.
#[derive(Debug)]
pub enum ExternalTable {
    Hive(ExternalHiveTable),
    Iceberg(ExternalIcebergTable),
}

/// The key of a table property list that holds the location of an Iceberg
/// table's metadata file.
pub open spec fn iceberg_metadata_location_key() -> Seq<char> {
    "metadata_location"@
}

pub fn iceberg_metadata_location() -> (r: String)
    ensures
        r@ == iceberg_metadata_location_key(),
{
    String::from_str("metadata_location")
}

/// The value of the first property named `key`.
pub open spec fn property_lookup(props: Seq<(String, String)>, key: Seq<char>) -> Option<Seq<char>>
    decreases props.len(),
{
    if props.len() == 0 {
        None
    } else if props[0].0@ == key {
        Some(props[0].1@)
    } else {
        property_lookup(props.drop_first(), key)
    }
}

/// The key/value view of a property list.
pub open spec fn properties_view(props: Seq<(String, String)>) -> Seq<(Seq<char>, Seq<char>)> {
    props.map_values(|p: (String, String)| (p.0@, p.1@))
}

/// No key occurs twice in a property list. The lists this library receives
/// are the key/value maps of a metastore or of a configuration, so their keys
/// are unique.
pub open spec fn keys_unique(props: Seq<(Seq<char>, Seq<char>)>) -> bool {
    forall|i: int, j: int| 0 <= i < j < props.len() ==> props[i].0 != props[j].0
}

/// With unique keys the lookup of a key is the value stored under it,
/// wherever it stands in the list.
pub proof fn lemma_lookup_unique_keys(props: Seq<(String, String)>, key: Seq<char>, i: int)
    requires
        keys_unique(properties_view(props)),
        0 <= i < props.len(),
        props[i].0@ == key,
    ensures
        property_lookup(props, key) == Some(props[i].1@),
    decreases props.len(),
{
    if i > 0 {
        assert(properties_view(props)[0].0 != properties_view(props)[i].0);
        let rest = props.drop_first();
        assert forall|a: int, b: int| 0 <= a < b < rest.len() implies properties_view(rest)[a].0
            != properties_view(rest)[b].0 by {
            assert(properties_view(props)[a + 1].0 != properties_view(props)[b + 1].0);
        }
        assert(rest[i - 1] == props[i]);
        lemma_lookup_unique_keys(rest, key, i - 1);
    }
}

/// A key that no property carries has no value.
pub proof fn lemma_lookup_absent(props: Seq<(String, String)>, key: Seq<char>)
    requires
        forall|i: int| 0 <= i < props.len() ==> props[i].0@ != key,
    ensures
        property_lookup(props, key) is None,
    decreases props.len(),
{
    if props.len() > 0 {
        let rest = props.drop_first();
        assert forall|i: int| 0 <= i < rest.len() implies rest[i].0@ != key by {
            assert(rest[i] == props[i + 1]);
        }
        lemma_lookup_absent(rest, key);
    }
}

/// The value of the first property named `key`, if any.
pub fn find_property(props: &Vec<(String, String)>, key: &String) -> (r: Option<String>)
    ensures
        match r {
            Some(v) => property_lookup(props@, key@) == Some(v@),
            None => property_lookup(props@, key@) is None,
        },
{
    let mut i: usize = 0;
    assert(props@.subrange(0, props@.len() as int) =~= props@);
    while i < props.len()
        invariant
            i <= props@.len(),
            property_lookup(props@, key@) == property_lookup(
                props@.subrange(i as int, props@.len() as int),
                key@,
            ),
        decreases props@.len() - i,
    {
        let ghost rest = props@.subrange(i as int, props@.len() as int);
        assert(rest[0] == props@[i as int]);
        if props[i].0 == *key {
            return Some(props[i].1.clone());
        }
        assert(rest.drop_first() =~= props@.subrange(i + 1, props@.len() as int));
        i = i + 1;
    }
    None
}

/// The metadata location that a table's properties declare, if they exist
/// and carry one.
pub open spec fn declared_metadata_location(parameters: Option<Seq<(String, String)>>) -> Option<
    Seq<char>,
> {
    match parameters {
        Some(p) => property_lookup(p, iceberg_metadata_location_key()),
        None => None,
    }
}

/// The contents of an optional property list.
pub open spec fn parameters_view(parameters: &Option<Vec<(String, String)>>) -> Option<Seq<(String, String)>> {
    match parameters {
        Some(p) => Some(p@),
        None => None,
    }
}

/// For every property map that carries the Iceberg metadata location, the
/// declared location is the value stored under that key; for every map
/// without it, there is none.
pub proof fn lemma_format_of_property_map(props: Seq<(String, String)>, i: int)
    requires
        keys_unique(properties_view(props)),
    ensures
        0 <= i < props.len() && props[i].0@ == iceberg_metadata_location_key()
            ==> declared_metadata_location(Some(props)) == Some(props[i].1@),
        (forall|k: int| 0 <= k < props.len() ==> props[k].0@ != iceberg_metadata_location_key())
            ==> declared_metadata_location(Some(props)) is None,
{
    if 0 <= i < props.len() && props[i].0@ == iceberg_metadata_location_key() {
        lemma_lookup_unique_keys(props, iceberg_metadata_location_key(), i);
    }
    if forall|k: int| 0 <= k < props.len() ==> props[k].0@ != iceberg_metadata_location_key() {
        lemma_lookup_absent(props, iceberg_metadata_location_key());
    }
}

/// Deduces a table's format from its properties. A table whose properties
/// carry the Iceberg metadata location is an Iceberg table located there;
/// any other table, or one without properties, has no determinable format.
pub fn deduce_table_format(parameters: &Option<Vec<(String, String)>>) -> (r: Result<
    (ExternalTableFormat, String),
    CatalogError,
>)
    ensures
        match declared_metadata_location(parameters_view(parameters)) {
            Some(loc) => r matches Ok((f, l)) && f == ExternalTableFormat::Iceberg && l@ == loc,
            None => r == Err::<(ExternalTableFormat, String), CatalogError>(
                CatalogError::UndeterminedFormat,
            ),
        },
{
    match parameters {
        Some(p) => {
            let key = iceberg_metadata_location();
            match find_property(p, &key) {
                Some(location) => Ok((ExternalTableFormat::Iceberg, location)),
                None => Err(CatalogError::UndeterminedFormat),
            }
        },
        None => Err(CatalogError::UndeterminedFormat),
    }
}

} // verus!
