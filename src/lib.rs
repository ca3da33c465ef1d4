//! Catalog federation for a SQL engine: external catalogs declared in a
//! configuration are enumerated from a metastore and exposed as a
//! catalog / schema / table tree whose tables hide their storage format.

pub mod error;
pub mod directory;
pub mod table_format;
pub mod catalog_config;
pub mod listing;
pub mod glue;
pub mod catalog;
pub mod iceberg_catalog;
pub mod snapshot;
