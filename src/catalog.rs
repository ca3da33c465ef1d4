use vstd::prelude::*;
use crate::catalog_config::{check_catalog_configs, config_names, first_duplicate_at, GlueCatalogConfig};
use crate::directory::{
    built_from, collect_outcomes, failures_of, first_success_order, lemma_lookup_deterministic,
    names_unique, Directory,
};
use crate::error::CatalogError;
use crate::glue::GlueCatalog;

verus! {

/// The life cycle of a catalog manager. `Ready` and `Failed` are final.
#[derive(Debug, Clone, Copy, PartialEq, Eq, Structural)]
pub enum LoadState {
    Uninitialized,
    Loading,
    Ready,
    Failed,
}

/// Pairs the catalog names awaited by a load with the outcome of building
/// each of them.
pub open spec fn named_outcomes(
    names: Seq<String>,
    outcomes: Seq<Result<GlueCatalog, CatalogError>>,
) -> Seq<(String, Result<GlueCatalog, CatalogError>)> {
    Seq::new(outcomes.len(), |i: int| (names[i], outcomes[i]))
}

/// The registry of federated catalogs. A load checks the configuration,
/// then takes in one build outcome per configured catalog; once it is done
/// the registry is only read.
#[derive(Debug)]
pub struct DobbyCatalogManager {
    pub state: LoadState,
    pub pending: Vec<String>,
    pub catalogs: Directory<GlueCatalog>,
}

impl DobbyCatalogManager {
    pub open spec fn wf(&self) -> bool {
        &&& self.catalogs.wf()
        &&& self.state != LoadState::Ready ==> self.catalogs.entries@.len() == 0
        &&& self.state == LoadState::Loading ==> names_unique(
            self.pending@.map_values(|s: String| s@),
        )
    }

    pub fn new() -> (r: Self)
        ensures
            r.state == LoadState::Uninitialized,
            r.catalogs.entries@.len() == 0,
            r.wf(),
    {
        DobbyCatalogManager {
            state: LoadState::Uninitialized,
            pending: Vec::new(),
            catalogs: Directory::new(),
        }
    }

    /// Starts a load from a decoded configuration, or from the error that
    /// reading or decoding it gave. A configuration error, or two catalogs
    /// with one name, fails the load for good with no catalog registered;
    /// otherwise the configured catalogs are handed back to be built. A
    /// manager loads once: asked again, it is left as it is.
    pub fn begin_load(&mut self, configs: Result<Vec<GlueCatalogConfig>, CatalogError>) -> (r: Result<
        Vec<GlueCatalogConfig>,
        CatalogError,
    >)
        requires
            old(self).wf(),
        ensures
            final(self).wf(),
            old(self).state != LoadState::Uninitialized ==> r == Err::<
                Vec<GlueCatalogConfig>,
                CatalogError,
            >(CatalogError::AlreadyLoaded) && *final(self) == *old(self),
            old(self).state == LoadState::Uninitialized ==> final(self).catalogs.entries@.len() == 0,
            old(self).state == LoadState::Uninitialized ==> match configs {
                Err(e) => r == Err::<Vec<GlueCatalogConfig>, CatalogError>(e) && final(self).state
                    == LoadState::Failed,
                Ok(c) => if names_unique(config_names(c@)) {
                    &&& r matches Ok(v) && v@ == c@
                    &&& final(self).state == LoadState::Loading
                    &&& final(self).pending@.map_values(|s: String| s@) == config_names(c@)
                } else {
                    &&& final(self).state == LoadState::Failed
                    &&& exists|j: int|
                        first_duplicate_at(config_names(c@), j) && r == Err::<
                            Vec<GlueCatalogConfig>,
                            CatalogError,
                        >(CatalogError::DuplicateCatalogName(c@[j].name))
                },
            },
    {
        if self.state != LoadState::Uninitialized {
            return Err(CatalogError::AlreadyLoaded);
        }
        let configs = match configs {
            Ok(c) => c,
            Err(e) => {
                self.state = LoadState::Failed;
                return Err(e);
            },
        };
        let ghost given = configs@;
        match check_catalog_configs(configs) {
            Ok(checked) => {
                let mut pending: Vec<String> = Vec::new();
                let mut i: usize = 0;
                while i < checked.len()
                    invariant
                        checked@ == given,
                        i <= checked@.len(),
                        pending@.len() == i,
                        forall|k: int| 0 <= k < i ==> (#[trigger] pending@[k])@ == checked@[k].name@,
                    decreases checked@.len() - i,
                {
                    pending.push(checked[i].name.clone());
                    i = i + 1;
                }
                assert(pending@.map_values(|s: String| s@) =~= config_names(given));
                self.pending = pending;
                self.state = LoadState::Loading;
                Ok(checked)
            },
            Err(e) => {
                self.state = LoadState::Failed;
                Err(e)
            },
        }
    }

    /// Ends a load with the outcome of building each configured catalog, in
    /// configuration order. The catalogs that were built are registered
    /// under their configured names, in configuration order; each one that
    /// failed is left out and returned with its error.
    pub fn finish_load(&mut self, outcomes: Vec<Result<GlueCatalog, CatalogError>>) -> (r: Vec<
        (String, CatalogError),
    >)
        requires
            old(self).state == LoadState::Loading,
            old(self).wf(),
            outcomes@.len() == old(self).pending@.len(),
        ensures
            final(self).state == LoadState::Ready,
            final(self).wf(),
            built_from(
                final(self).catalogs,
                named_outcomes(old(self).pending@, outcomes@),
                outcomes@.len() as int,
            ),
            final(self).catalogs.names() == first_success_order(
                named_outcomes(old(self).pending@, outcomes@),
            ),
            r@.map_values(|f: (String, CatalogError)| (f.0@, f.1)) == failures_of(
                named_outcomes(old(self).pending@, outcomes@),
            ),
    {
        let ghost names = self.pending@;
        let ghost all = outcomes@;
        let count = outcomes.len();
        let mut rest = outcomes;
        let mut named: Vec<(String, Result<GlueCatalog, CatalogError>)> = Vec::new();
        let mut i: usize = 0;
        while rest.len() > 0
            invariant
                names == self.pending@,
                all.len() == names.len(),
                all.len() == count,
                i + rest@.len() == all.len(),
                rest@ == all.subrange(i as int, all.len() as int),
                named@ == named_outcomes(names, all).take(i as int),
            decreases rest@.len(),
        {
            let outcome = rest.remove(0);
            named.push((self.pending[i].clone(), outcome));
            assert(named@ =~= named_outcomes(names, all).take(i + 1));
            assert(rest@ =~= all.subrange(i + 1, all.len() as int));
            i = i + 1;
        }
        assert(named@ =~= named_outcomes(names, all));
        let (catalogs, report) = collect_outcomes(named);
        self.catalogs = catalogs;
        self.state = LoadState::Ready;
        report.failures
    }

    /// The names of the registered catalogs.
    pub fn catalog_names(&self) -> (r: Vec<String>)
        ensures
            r@.map_values(|s: String| s@) == self.catalogs.names(),
    {
        self.catalogs.names_vec()
    }

    /// The catalog registered under `name`, if any.
    pub fn catalog(&self, name: &str) -> (r: Option<&GlueCatalog>)
        requires
            self.wf(),
        ensures
            self.catalogs.lookup_result(
                name@,
                match r {
                    Some(c) => Some(*c),
                    None => None,
                },
            ),
    {
        self.catalogs.get(name)
    }

    /// The registry is fixed once loaded: a catalog offered afterwards is
    /// not taken in, and nothing is replaced.
    pub fn register_catalog(&self, name: String, catalog: GlueCatalog) -> (r: Option<GlueCatalog>)
        ensures
            r is None,
    {
        None
    }
}

/// Looking a name up twice in the registry gives the same catalog both
/// times: each name is bound to at most one catalog, and nothing changes
/// the registry between the two lookups.
pub proof fn lemma_lookup_idempotent(
    m: &DobbyCatalogManager,
    name: Seq<char>,
    first: Option<GlueCatalog>,
    second: Option<GlueCatalog>,
)
    requires
        m.wf(),
        m.catalogs.lookup_result(name, first),
        m.catalogs.lookup_result(name, second),
    ensures
        first == second,
{
    lemma_lookup_deterministic(&m.catalogs, name, first, second);
}

} // verus!
