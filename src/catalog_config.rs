use vstd::prelude::*;
use crate::directory::names_unique;
use crate::error::CatalogError;
use crate::table_format::{keys_unique, properties_view};

verus! {

/// Settings of a catalog that builds table I/O contexts.
pub trait DobbyCatalogConfig {
    /// The storage properties handed to every table I/O context of the catalog.
    spec fn file_io_parameters(&self) -> Seq<(Seq<char>, Seq<char>)>;

    fn build_iceberg_file_io_parameters(&self) -> (r: Vec<(String, String)>)
        ensures
            properties_view(r@) == self.file_io_parameters(),
    ;
}

/// Connection settings of one Glue catalog, as declared in the configuration.
#[derive(Debug)]
pub struct GlueCatalogConfig {
    pub name: String,
    pub aws_glue_region: Option<String>,
    pub aws_glue_access_key: Option<String>,
    pub aws_glue_secret_key: Option<String>,
    pub aws_s3_region: Option<String>,
    pub aws_s3_access_key: Option<String>,
    pub aws_s3_secret_key: Option<String>,
}

pub open spec fn s3_region_property() -> Seq<char> {
    "s3.region"@
}

pub open spec fn s3_access_key_property() -> Seq<char> {
    "s3.access-key-id"@
}

pub open spec fn s3_secret_key_property() -> Seq<char> {
    "s3.secret-access-key"@
}

/// Relies on iceberg::io::S3_REGION: the FileIO property of the S3 region.
#[verifier::external_body]
fn s3_region_key() -> (r: String)
    ensures
        r@ == s3_region_property(),
{
    iceberg::io::S3_REGION.to_string()
}

/// Relies on iceberg::io::S3_ACCESS_KEY_ID: the FileIO property of the S3 access key.
#[verifier::external_body]
fn s3_access_key_key() -> (r: String)
    ensures
        r@ == s3_access_key_property(),
{
    iceberg::io::S3_ACCESS_KEY_ID.to_string()
}

/// Relies on iceberg::io::S3_SECRET_ACCESS_KEY: the FileIO property of the S3 secret key.
#[verifier::external_body]
fn s3_secret_key_key() -> (r: String)
    ensures
        r@ == s3_secret_key_property(),
{
    iceberg::io::S3_SECRET_ACCESS_KEY.to_string()
}

/// One property `key = value` when the value is present, none otherwise.
pub open spec fn optional_property(key: Seq<char>, value: Option<String>) -> Seq<
    (Seq<char>, Seq<char>),
> {
    match value {
        Some(v) => seq![(key, v@)],
        None => seq![],
    }
}

fn push_optional(props: &mut Vec<(String, String)>, key: String, value: &Option<String>)
    ensures
        properties_view(final(props)@) == properties_view(old(props)@) + optional_property(
            key@,
            *value,
        ),
{
    let ghost key_view = key@;
    if let Some(v) = value {
        props.push((key, v.clone()));
        assert(properties_view(props@) =~= properties_view(old(props)@) + seq![(key_view, v@)]);
    } else {
        assert(properties_view(props@) =~= properties_view(old(props)@) + seq![]);
    }
}

impl DobbyCatalogConfig for GlueCatalogConfig {
    /// The S3 region, access key and secret key that the configuration sets,
    /// in that order.
    open spec fn file_io_parameters(&self) -> Seq<(Seq<char>, Seq<char>)> {
        optional_property(s3_region_property(), self.aws_s3_region) + optional_property(
            s3_access_key_property(),
            self.aws_s3_access_key,
        ) + optional_property(s3_secret_key_property(), self.aws_s3_secret_key)
    }

    fn build_iceberg_file_io_parameters(&self) -> (r: Vec<(String, String)>) {
        let mut props: Vec<(String, String)> = Vec::new();
        assert(properties_view(props@) =~= seq![]);
        push_optional(&mut props, s3_region_key(), &self.aws_s3_region);
        push_optional(&mut props, s3_access_key_key(), &self.aws_s3_access_key);
        push_optional(&mut props, s3_secret_key_key(), &self.aws_s3_secret_key);
        props
    }
}

/// The storage properties of a Glue catalog name each key once.
pub proof fn lemma_file_io_keys_unique(c: &GlueCatalogConfig)
    ensures
        keys_unique(c.file_io_parameters()),
{
    reveal_strlit("s3.region");
    reveal_strlit("s3.access-key-id");
    reveal_strlit("s3.secret-access-key");
    assert(s3_region_property()[3] != s3_access_key_property()[3]);
    assert(s3_region_property()[3] != s3_secret_key_property()[3]);
    assert(s3_access_key_property()[3] != s3_secret_key_property()[3]);
    let p = c.file_io_parameters();
    assert forall|i: int, j: int| 0 <= i < j < p.len() implies p[i].0 != p[j].0 by {
        let a = optional_property(s3_region_property(), c.aws_s3_region);
        let b = optional_property(s3_access_key_property(), c.aws_s3_access_key);
        let d = optional_property(s3_secret_key_property(), c.aws_s3_secret_key);
        assert(p == a + b + d);
        if i < a.len() {
            assert(p[i].0 == s3_region_property());
        } else if i < a.len() + b.len() {
            assert(p[i].0 == s3_access_key_property());
        } else {
            assert(p[i].0 == s3_secret_key_property());
        }
        if j < a.len() {
            assert(p[j].0 == s3_region_property());
        } else if j < a.len() + b.len() {
            assert(p[j].0 == s3_access_key_property());
        } else {
            assert(p[j].0 == s3_secret_key_property());
        }
    }
}

impl GlueCatalogConfig {
    /// The static metastore credentials, access key then secret key: used
    /// only when the configuration sets both.
    pub fn glue_credentials(&self) -> (r: Option<(String, String)>)
        ensures
            match (self.aws_glue_access_key, self.aws_glue_secret_key) {
                (Some(access), Some(secret)) => r matches Some((a, s)) && a@ == access@ && s@
                    == secret@,
                _ => r is None,
            },
    {
        match (&self.aws_glue_access_key, &self.aws_glue_secret_key) {
            (Some(access), Some(secret)) => Some((access.clone(), secret.clone())),
            _ => None,
        }
    }
}

/// The catalog names of a configuration, in order.
pub open spec fn config_names(configs: Seq<GlueCatalogConfig>) -> Seq<Seq<char>> {
    configs.map_values(|c: GlueCatalogConfig| c.name@)
}

/// Position `j` holds the first name that repeats an earlier one.
pub open spec fn first_duplicate_at(names: Seq<Seq<char>>, j: int) -> bool {
    &&& 0 <= j < names.len()
    &&& names.take(j).contains(names[j])
    &&& names_unique(names.take(j))
}

/// Accepts a decoded configuration whole or not at all: it is returned
/// unchanged when no two catalogs share a name, and rejected with the first
/// repeated name otherwise.
pub fn check_catalog_configs(configs: Vec<GlueCatalogConfig>) -> (r: Result<
    Vec<GlueCatalogConfig>,
    CatalogError,
>)
    ensures
        names_unique(config_names(configs@)) ==> (r matches Ok(v) && v@ == configs@),
        !names_unique(config_names(configs@)) ==> exists|j: int|
            first_duplicate_at(config_names(configs@), j) && r == Err::<
                Vec<GlueCatalogConfig>,
                CatalogError,
            >(CatalogError::DuplicateCatalogName(configs@[j].name)),
{
    let ghost names = config_names(configs@);
    let mut j: usize = 0;
    while j < configs.len()
        invariant
            j <= configs@.len(),
            names == config_names(configs@),
            names_unique(names.take(j as int)),
        decreases configs@.len() - j,
    {
        let mut i: usize = 0;
        while i < j
            invariant
                i <= j < configs@.len(),
                names == config_names(configs@),
                names_unique(names.take(j as int)),
                forall|k: int| 0 <= k < i ==> names[k] != names[j as int],
            decreases j - i,
        {
            if configs[i].name == configs[j].name {
                assert(names.take(j as int)[i as int] == names[j as int]);
                assert(names.take(j as int).contains(names[j as int]));
                assert(first_duplicate_at(names, j as int));
                return Err(CatalogError::DuplicateCatalogName(configs[j].name.clone()));
            }
            i = i + 1;
        }
        let ghost prefix = names.take(j + 1);
        assert(names_unique(prefix)) by {
            assert forall|a: int, b: int| 0 <= a < b < j + 1 implies prefix[a] != prefix[b] by {
                if b < j {
                    assert(names.take(j as int)[a] == prefix[a]);
                    assert(names.take(j as int)[b] == prefix[b]);
                }
            }
        }
        j = j + 1;
    }
    assert(names.take(configs@.len() as int) =~= names);
    Ok(configs)
}

} // verus!
