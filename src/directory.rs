use vstd::prelude::*;

verus! {

/// The names of a list of named entries, in order.
pub open spec fn entry_names<T>(entries: Seq<(String, T)>) -> Seq<Seq<char>> {
    entries.map_values(|e: (String, T)| e.0@)
}

/// No name occurs twice.
pub open spec fn names_unique(names: Seq<Seq<char>>) -> bool {
    forall|i: int, j: int| 0 <= i < j < names.len() ==> names[i] != names[j]
}

/// A name-keyed directory that keeps its entries in the order in which their
/// names were first inserted. Inserting a name that is already present
/// replaces its entry in place (last write wins).
#[derive(Debug)]
pub struct Directory<T> {
    pub entries: Vec<(String, T)>,
}

impl<T> Directory<T> {
    pub open spec fn names(&self) -> Seq<Seq<char>> {
        entry_names(self.entries@)
    }

    /// Each name stands at most once.
    pub open spec fn wf(&self) -> bool {
        names_unique(self.names())
    }

    pub open spec fn contains(&self, name: Seq<char>) -> bool {
        exists|i: int| 0 <= i < self.entries@.len() && self.entries@[i].0@ == name
    }

    /// `i` is the position of the entry named `name`.
    pub open spec fn at(&self, name: Seq<char>, i: int) -> bool {
        0 <= i < self.entries@.len() && self.entries@[i].0@ == name
    }

    /// `r` is what a lookup of `name` returns: the entry of that name, or
    /// nothing when the name is absent.
    pub open spec fn lookup_result(&self, name: Seq<char>, r: Option<T>) -> bool {
        match r {
            Some(v) => exists|i: int| self.at(name, i) && v == self.entries@[i].1,
            None => !self.contains(name),
        }
    }

    pub fn new() -> (r: Self)
        ensures
            r.entries@.len() == 0,
            r.wf(),
    {
        Directory { entries: Vec::new() }
    }

    /// Position of the entry named `name`, if any.
    pub fn position(&self, name: &String) -> (r: Option<usize>)
        ensures
            match r {
                Some(i) => self.at(name@, i as int),
                None => !self.contains(name@),
            },
    {
        let mut i: usize = 0;
        while i < self.entries.len()
            invariant
                i <= self.entries@.len(),
                forall|j: int| 0 <= j < i ==> self.entries@[j].0@ != name@,
            decreases self.entries@.len() - i,
        {
            if self.entries[i].0 == *name {
                return Some(i);
            }
            i = i + 1;
        }
        None
    }

    /// Adds `value` under `name`, replacing the entry of that name if there is one.
    pub fn insert(&mut self, name: String, value: T)
        requires
            old(self).wf(),
        ensures
            final(self).wf(),
            old(self).contains(name@) ==> final(self).names() == old(self).names(),
            !old(self).contains(name@) ==> final(self).names() == old(self).names().push(name@),
            forall|i: int|
                0 <= i < final(self).entries@.len() ==> (#[trigger] final(self).entries@[i]).1
                    == if final(self).entries@[i].0@ == name@ {
                    value
                } else {
                    old(self).entries@[i].1
                },
    {
        let ghost name_view = name@;
        match self.position(&name) {
            Some(i) => {
                self.entries.set(i, (name, value));
                assert(self.names() =~= old(self).names().update(i as int, name_view));
                assert(self.names() =~= old(self).names());
                assert forall|k: int| 0 <= k < self.entries@.len() && k != i implies self.entries@[k].0@
                    != name_view by {
                    assert(old(self).names()[k] == self.entries@[k].0@);
                    assert(old(self).names()[i as int] == name_view);
                }
            },
            None => {
                self.entries.push((name, value));
                assert(self.names() =~= old(self).names().push(name_view));
                assert forall|k: int| 0 <= k < old(self).entries@.len() implies self.entries@[k].0@
                    != name_view by {
                    assert(old(self).entries@[k] == self.entries@[k]);
                }
            },
        }
    }

    /// The entry named `name`, if any.
    pub fn get(&self, name: &str) -> (r: Option<&T>)
        requires
            self.wf(),
        ensures
            self.lookup_result(name@, match r {
                Some(v) => Some(*v),
                None => None,
            }),
    {
        let key = name.to_owned();
        match self.position(&key) {
            Some(i) => Some(&self.entries[i].1),
            None => None,
        }
    }

    pub fn contains_name(&self, name: &str) -> (r: bool)
        ensures
            r == self.contains(name@),
    {
        let key = name.to_owned();
        self.position(&key).is_some()
    }

    /// The names of all entries, in order.
    pub fn names_vec(&self) -> (r: Vec<String>)
        ensures
            r@.map_values(|s: String| s@) == self.names(),
    {
        let mut out: Vec<String> = Vec::new();
        let mut i: usize = 0;
        while i < self.entries.len()
            invariant
                i <= self.entries@.len(),
                out@.len() == i,
                forall|k: int| 0 <= k < i ==> (#[trigger] out@[k])@ == self.entries@[k].0@,
            decreases self.entries@.len() - i,
        {
            out.push(self.entries[i].0.clone());
            i = i + 1;
        }
        assert(out@.map_values(|s: String| s@) =~= self.names());
        out
    }
}

/// Outcome `j` succeeded for the name `name`.
pub open spec fn ok_at<T, E>(outcomes: Seq<(String, Result<T, E>)>, name: Seq<char>, j: int) -> bool {
    0 <= j < outcomes.len() && outcomes[j].0@ == name && outcomes[j].1 is Ok
}

/// Outcome `j` is the last success for `name` among the first `n` outcomes.
pub open spec fn last_ok_before<T, E>(
    outcomes: Seq<(String, Result<T, E>)>,
    n: int,
    name: Seq<char>,
    j: int,
) -> bool {
    &&& j < n
    &&& ok_at(outcomes, name, j)
    &&& forall|k: int| j < k < n ==> !ok_at(outcomes, name, k)
}

/// The failed outcomes, each as its name and error, in order.
pub open spec fn failures_of<T, E>(outcomes: Seq<(String, Result<T, E>)>) -> Seq<(Seq<char>, E)> {
    outcomes.filter_map(
        |o: (String, Result<T, E>)|
            match o.1 {
                Ok(_) => None,
                Err(e) => Some((o.0@, e)),
            },
    )
}

/// What a directory built from the first `n` outcomes holds: each name that
/// succeeded at least once, bound to its last success.
pub open spec fn built_from<T, E>(d: Directory<T>, outcomes: Seq<(String, Result<T, E>)>, n: int) -> bool {
    &&& d.wf()
    &&& forall|name: Seq<char>| d.contains(name) <==> exists|j: int| j < n && ok_at(outcomes, name, j)
    &&& forall|p: int| 0 <= p < d.entries@.len() ==> #[trigger] holds_last_ok(d, outcomes, n, p)
}

/// Entry `p` of `d` holds the last success for its name among the first
/// `n` outcomes.
pub open spec fn holds_last_ok<T, E>(d: Directory<T>, outcomes: Seq<(String, Result<T, E>)>, n: int, p: int) -> bool {
    exists|j: int| last_ok_before(outcomes, n, d.entries@[p].0@, j) && d.entries@[p].1 == outcomes[j].1->Ok_0
}

/// The names that succeeded, each once, in the order of their first success.
pub open spec fn first_success_order<T, E>(outcomes: Seq<(String, Result<T, E>)>) -> Seq<Seq<char>>
    decreases outcomes.len(),
{
    if outcomes.len() == 0 {
        Seq::empty()
    } else {
        let prev = first_success_order(outcomes.drop_last());
        let last = outcomes.last();
        if last.1 is Ok && !prev.contains(last.0@) {
            prev.push(last.0@)
        } else {
            prev
        }
    }
}

/// The names of the successes that replaced an earlier success of the same
/// name, in order.
pub open spec fn replaced_names<T, E>(outcomes: Seq<(String, Result<T, E>)>) -> Seq<Seq<char>>
    decreases outcomes.len(),
{
    if outcomes.len() == 0 {
        Seq::empty()
    } else {
        let prev = replaced_names(outcomes.drop_last());
        let last = outcomes.last();
        if last.1 is Ok && first_success_order(outcomes.drop_last()).contains(last.0@) {
            prev.push(last.0@)
        } else {
            prev
        }
    }
}

/// What a build left out: each failure with its name and error, and the
/// name of each success that replaced an earlier one.
#[derive(Debug)]
pub struct BuildReport<E> {
    pub failures: Vec<(String, E)>,
    pub replaced: Vec<String>,
}

impl<T> Directory<T> {
    proof fn lemma_contains_names(&self, name: Seq<char>)
        ensures
            self.contains(name) == self.names().contains(name),
    {
        if self.contains(name) {
            let i = choose|i: int| 0 <= i < self.entries@.len() && self.entries@[i].0@ == name;
            assert(self.names()[i] == name);
        }
        if self.names().contains(name) {
            let i = choose|i: int| 0 <= i < self.names().len() && self.names()[i] == name;
            assert(self.entries@[i].0@ == name);
        }
    }
}

/// Collects a list of named build outcomes into a directory of the
/// successful ones, in the order of their first success, and a report of
/// the failures. A name that succeeded more than once keeps its last
/// success, and the report names each replacement.
pub fn collect_outcomes<T, E>(outcomes: Vec<(String, Result<T, E>)>) -> (r: (Directory<T>, BuildReport<E>))
    ensures
        built_from(r.0, outcomes@, outcomes@.len() as int),
        r.0.names() == first_success_order(outcomes@),
        r.1.failures@.map_values(|f: (String, E)| (f.0@, f.1)) == failures_of(outcomes@),
        r.1.replaced@.map_values(|s: String| s@) == replaced_names(outcomes@),
{
    let ghost all = outcomes@;
    let count = outcomes.len();
    let mut rest = outcomes;
    let mut dir: Directory<T> = Directory::new();
    let mut failures: Vec<(String, E)> = Vec::new();
    let mut replaced: Vec<String> = Vec::new();
    let mut i: usize = 0;
    assert(replaced@.map_values(|s: String| s@) =~= replaced_names(all.take(0)));
    assert(dir.names() =~= first_success_order(all.take(0)));
    while rest.len() > 0
        invariant
            dir.names() == first_success_order(all.take(i as int)),
            replaced@.map_values(|s: String| s@) == replaced_names(all.take(i as int)),
            i + rest@.len() == all.len(),
            all.len() <= usize::MAX,
            rest@ == all.subrange(i as int, all.len() as int),
            built_from(dir, all, i as int),
            failures@.map_values(|f: (String, E)| (f.0@, f.1)) == failures_of(all.take(i as int)),
        decreases rest@.len(),
    {
        let (name, outcome) = rest.remove(0);
        assert(all[i as int] == (name, outcome));
        let ghost name_view = name@;
        let ghost old_dir = dir;
        let ghost old_failures = failures@;
        assert(all.take(i + 1).drop_last() =~= all.take(i as int));
        assert(all.take(i + 1).last() == all[i as int]);
        let ghost old_replaced = replaced@;
        match outcome {
            Ok(value) => {
                let ghost v = value;
                let was_present = dir.contains_name(name.as_str());
                proof {
                    old_dir.lemma_contains_names(name_view);
                }
                if was_present {
                    replaced.push(name.clone());
                    assert(replaced@.map_values(|s: String| s@) =~= old_replaced.map_values(
                        |s: String| s@,
                    ).push(name_view));
                }
                dir.insert(name, value);
                assert(ok_at(all, name_view, i as int));
                let ghost n_old = old_dir.entries@.len() as int;
                assert(dir.names().len() == dir.entries@.len());
                assert(old_dir.names().len() == n_old);
                proof {
                    if old_dir.contains(name_view) {
                        assert(dir.entries@.len() == n_old);
                        let p = choose|p: int| 0 <= p < old_dir.entries@.len() && old_dir.entries@[p].0@ == name_view;
                        assert(old_dir.names()[p] == name_view);
                        assert(dir.names()[p] == name_view);
                        assert(dir.entries@[p].0@ == name_view);
                    } else {
                        assert(dir.entries@.len() == n_old + 1);
                        assert(dir.names()[n_old] == name_view);
                        assert(dir.entries@[n_old].0@ == name_view);
                    }
                }
                assert forall|p: int| 0 <= p < n_old implies #[trigger] dir.entries@[p].0@
                    == old_dir.entries@[p].0@ by {
                    assert(dir.names()[p] == dir.entries@[p].0@);
                    assert(old_dir.names()[p] == old_dir.entries@[p].0@);
                    if !old_dir.contains(name_view) {
                        assert(old_dir.names().push(name_view)[p] == old_dir.names()[p]);
                    }
                }
                assert(dir.contains(name_view));
                assert forall|nm: Seq<char>| dir.contains(nm) implies exists|j: int|
                    j < i + 1 && ok_at(all, nm, j) by {
                    if nm != name_view {
                        let p = choose|p: int| 0 <= p < dir.entries@.len() && dir.entries@[p].0@ == nm;
                        assert(p < n_old);
                        assert(old_dir.entries@[p].0@ == nm);
                        assert(old_dir.contains(nm));
                        let j = choose|j: int| j < i && ok_at(all, nm, j);
                        assert(j < i + 1 && ok_at(all, nm, j));
                    }
                }
                assert forall|nm: Seq<char>| (exists|j: int| j < i + 1 && ok_at(all, nm, j)) implies #[trigger] dir.contains(nm) by {
                    if nm != name_view {
                        let j = choose|j: int| j < i + 1 && ok_at(all, nm, j);
                        assert(j < i);
                        assert(ok_at(all, nm, j));
                        assert(old_dir.contains(nm));
                        let p = choose|p: int| 0 <= p < old_dir.entries@.len() && old_dir.entries@[p].0@ == nm;
                        assert(dir.entries@[p].0@ == nm);
                    }
                }
                assert forall|p: int| 0 <= p < dir.entries@.len() implies #[trigger] holds_last_ok(
                    dir,
                    all,
                    i + 1,
                    p,
                ) by {
                    if dir.entries@[p].0@ == name_view {
                        assert(last_ok_before(all, i + 1, name_view, i as int));
                    } else {
                        assert(p < n_old);
                        let nm = dir.entries@[p].0@;
                        assert(old_dir.entries@[p].0@ == nm);
                        assert(holds_last_ok(old_dir, all, i as int, p));
                        let j = choose|j: int| last_ok_before(all, i as int, old_dir.entries@[p].0@, j)
                            && old_dir.entries@[p].1 == all[j].1->Ok_0;
                        assert(last_ok_before(all, i + 1, nm, j));
                    }
                }
                assert(failures_of(all.take(i + 1)) =~= failures_of(all.take(i as int)));
            },
            Err(e) => {
                assert(replaced_names(all.take(i + 1)) == replaced_names(all.take(i as int)));
                assert(first_success_order(all.take(i + 1)) == first_success_order(all.take(i as int)));
                failures.push((name, e));
                assert(failures@.map_values(|f: (String, E)| (f.0@, f.1)) =~= old_failures.map_values(
                    |f: (String, E)| (f.0@, f.1),
                ).push((name_view, e)));
                assert(failures_of(all.take(i + 1)) =~= failures_of(all.take(i as int)).push((name_view, e)));
                assert forall|nm: Seq<char>| dir.contains(nm) <==> exists|j: int|
                    j < i + 1 && ok_at(all, nm, j) by {
                    if exists|j: int| j < i + 1 && ok_at(all, nm, j) {
                        let j = choose|j: int| j < i + 1 && ok_at(all, nm, j);
                        assert(j < i);
                    }
                }
                assert forall|p: int| 0 <= p < dir.entries@.len() implies #[trigger] holds_last_ok(
                    dir,
                    all,
                    i + 1,
                    p,
                ) by {
                    assert(holds_last_ok(dir, all, i as int, p));
                    let j = choose|j: int| last_ok_before(all, i as int, dir.entries@[p].0@, j)
                        && dir.entries@[p].1 == all[j].1->Ok_0;
                    assert(last_ok_before(all, i + 1, dir.entries@[p].0@, j));
                }
            },
        }
        assert(built_from(dir, all, i + 1));
        assert(rest@ =~= all.subrange(i + 1, all.len() as int));
        i = i + 1;
    }
    assert(all.take(i as int) =~= all);
    (dir, BuildReport { failures, replaced })
}

/// In a directory whose names are unique, a name has at most one position.
pub proof fn lemma_position_unique<T>(d: &Directory<T>, name: Seq<char>, i: int, j: int)
    requires
        d.wf(),
        d.at(name, i),
        d.at(name, j),
    ensures
        i == j,
{
    if i < j {
        assert(d.names()[i] == d.names()[j]);
    } else if j < i {
        assert(d.names()[j] == d.names()[i]);
    }
}

/// Two lookups of the same name in a well-formed directory give the same
/// result.
pub proof fn lemma_lookup_deterministic<T>(
    d: &Directory<T>,
    name: Seq<char>,
    first: Option<T>,
    second: Option<T>,
)
    requires
        d.wf(),
        d.lookup_result(name, first),
        d.lookup_result(name, second),
    ensures
        first == second,
{
    match first {
        Some(v) => {
            let i = choose|i: int| d.at(name, i) && v == d.entries@[i].1;
            match second {
                Some(w) => {
                    let j = choose|j: int| d.at(name, j) && w == d.entries@[j].1;
                    lemma_position_unique(d, name, i, j);
                },
                None => {},
            }
        },
        None => {
            match second {
                Some(w) => {
                    let j = choose|j: int| d.at(name, j) && w == d.entries@[j].1;
                },
                None => {},
            }
        },
    }
}

} // verus!
