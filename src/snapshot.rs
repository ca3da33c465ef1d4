use vstd::prelude::*;
use crate::error::CatalogError;
use crate::glue::TableOpenPlan;
use crate::glue::copy_names;
use crate::table_format::{ExternalIcebergTable, TableIdentifier};

verus! {

#[verifier::external_type_specification]
#[verifier::external_body]
pub struct ExNamespaceIdent(iceberg::NamespaceIdent);

#[verifier::external_type_specification]
#[verifier::external_body]
pub struct ExTableIdent(iceberg::TableIdent);

#[verifier::external_type_specification]
#[verifier::external_body]
pub struct ExIcebergError(iceberg::Error);

/// Relies on iceberg::NamespaceIdent::from_vec: it refuses exactly an empty
/// list of namespace levels.
pub assume_specification[ iceberg::NamespaceIdent::from_vec ](names: Vec<String>) -> (r: Result<
    iceberg::NamespaceIdent,
    iceberg::Error,
>)
    ensures
        r is Ok <==> names@.len() > 0,
;

/// Relies on iceberg::TableIdent::new, which pairs a namespace with a name.
pub assume_specification[ iceberg::TableIdent::new ](
    namespace: iceberg::NamespaceIdent,
    name: String,
) -> iceberg::TableIdent;

/// Relies on iceberg::Error's Display: the message of an error.
#[verifier::external_body]
fn iceberg_error_text(e: &iceberg::Error) -> String {
    e.to_string()
}

/// What opening a table's snapshot needs besides its storage context: the
/// metadata file and the table's identifier in the library's and in
/// Iceberg's terms.
#[derive(Debug)]
pub struct SnapshotSource {
    pub metadata_location: String,
    pub table_identifier: TableIdentifier,
    pub table_ident: iceberg::TableIdent,
}

impl ExternalIcebergTable {
    /// Prepares the opening of a planned Iceberg table, given the outcome of
    /// building its storage context (the error message when that failed).
    /// A storage context that could not be built is a storage configuration
    /// error, whatever the identifier; otherwise the table must have a
    /// namespace to name a snapshot table.
    pub fn prepare_open(plan: &TableOpenPlan, storage: Result<(), String>) -> (r: Result<
        SnapshotSource,
        CatalogError,
    >)
        ensures
            storage matches Err(msg) ==> r == Err::<SnapshotSource, CatalogError>(
                CatalogError::StorageConfigError(msg),
            ),
            storage is Ok ==> (r is Ok <==> plan.table_identifier.namespace@.len() > 0),
            storage is Ok && plan.table_identifier.namespace@.len() == 0 ==> r matches Err(
                CatalogError::SnapshotOpenError(_),
            ),
            r matches Ok(s) ==> s.metadata_location@ == plan.table_location@
                && s.table_identifier.namespace@ == plan.table_identifier.namespace@
                && s.table_identifier.name@ == plan.table_identifier.name@,
    {
        if let Err(msg) = storage {
            return Err(CatalogError::StorageConfigError(msg));
        }
        let namespace = copy_names(&plan.table_identifier.namespace);
        let iceberg_namespace = match iceberg::NamespaceIdent::from_vec(copy_names(&namespace)) {
            Ok(ns) => ns,
            Err(e) => return Err(CatalogError::SnapshotOpenError(iceberg_error_text(&e))),
        };
        let name = plan.table_identifier.name.clone();
        let table_ident = iceberg::TableIdent::new(iceberg_namespace, name.clone());
        Ok(SnapshotSource {
            metadata_location: plan.table_location.clone(),
            table_identifier: TableIdentifier { namespace, name },
            table_ident,
        })
    }
}

} // verus!
