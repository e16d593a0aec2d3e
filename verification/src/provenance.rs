//! Where each resolved configuration leaf came from.
use vstd::prelude::*;
use crate::text::{owned, str_eq};

verus! {

/// The layer a configuration value was taken from.
#[derive(Clone, Copy, Debug, PartialEq, Eq, Hash, Structural)]
pub enum ConfigSource {
    Default,
    User,
    Project,
    Environment,
    Cli,
}

/// The dotted path of a configuration leaf, such as `paths.state_dir`.
#[derive(Clone, Debug, PartialEq, Eq, Hash)]
pub struct ProvenancePath(pub String);

/// A configuration source together with the place it was read from
/// (a file path, an environment variable name, or `cli`).
#[derive(Debug, Clone, PartialEq, Eq)]
pub struct ProvenanceRecord {
    pub source: ConfigSource,
    pub origin: Option<String>,
}

/// Values that can be recorded as the provenance of many leaves.
pub trait Stamp: Sized {
    /// A copy of this value.
    fn duplicate(&self) -> (r: Self)
        ensures
            r == *self,
    ;
}

impl Stamp for ConfigSource {
    fn duplicate(&self) -> (r: Self) {
        *self
    }
}

impl Stamp for ProvenanceRecord {
    fn duplicate(&self) -> (r: Self) {
        let origin = match &self.origin {
            Some(o) => Some(o.clone()),
            None => None,
        };
        ProvenanceRecord { source: self.source, origin }
    }
}

/// The map that a log of `(path, value)` entries denotes: later entries win.
pub open spec fn log_map<V>(entries: Seq<(ProvenancePath, V)>) -> Map<Seq<char>, V>
    decreases entries.len(),
{
    if entries.len() == 0 {
        Map::empty()
    } else {
        log_map(entries.drop_last()).insert(entries.last().0.0@, entries.last().1)
    }
}

/// A map from leaf paths to provenance values.
///
/// Recording a path that is already present replaces its value.
#[derive(Debug, Clone)]
pub struct PathMap<V> {
    entries: Vec<(ProvenancePath, V)>,
}

/// Provenance by source only.
pub type ProvenanceMap = PathMap<ConfigSource>;

/// Provenance by source and origin.
pub type ProvenanceMapDetailed = PathMap<ProvenanceRecord>;

impl<V> View for PathMap<V> {
    type V = Map<Seq<char>, V>;

    closed spec fn view(&self) -> Map<Seq<char>, V> {
        log_map(self.entries@)
    }
}

proof fn lemma_log_map_suffix_free<V>(s: Seq<(ProvenancePath, V)>, i: int, k: Seq<char>)
    requires
        0 <= i <= s.len(),
        forall|j: int| i <= j < s.len() ==> s[j].0.0@ != k,
    ensures
        log_map(s).dom().contains(k) == log_map(s.take(i)).dom().contains(k),
        log_map(s).dom().contains(k) ==> log_map(s)[k] == log_map(s.take(i))[k],
    decreases s.len(),
{
    if s.len() > i {
        lemma_log_map_suffix_free(s.drop_last(), i, k);
        assert(s.drop_last().take(i) =~= s.take(i));
    } else {
        assert(s.take(i) =~= s);
    }
}

impl<V> PathMap<V> {
    /// An empty map.
    pub fn new() -> (m: Self)
        ensures
            m@ == Map::<Seq<char>, V>::empty(),
    {
        PathMap { entries: Vec::new() }
    }

    /// Records `value` for `path`, replacing any earlier value.
    pub fn insert(&mut self, path: ProvenancePath, value: V)
        ensures
            final(self)@ == old(self)@.insert(path.0@, value),
    {
        self.entries.push((path, value));
        assert(self.entries@.drop_last() =~= old(self).entries@);
    }

    /// The value recorded for `path`, if any.
    pub fn get(&self, path: &ProvenancePath) -> (r: Option<&V>)
        ensures
            r.is_some() == self@.dom().contains(path.0@),
            r matches Some(v) ==> *v == self@[path.0@],
    {
        let mut i = self.entries.len();
        while i > 0
            invariant
                i <= self.entries.len(),
                forall|j: int| i <= j < self.entries@.len() ==> self.entries@[j].0.0@ != path.0@,
            decreases i,
        {
            let k = i - 1;
            if str_eq(self.entries[k].0.0.as_str(), path.0.as_str()) {
                proof {
                    lemma_log_map_suffix_free(self.entries@, i as int, path.0@);
                    assert(self.entries@.take(i as int).drop_last() =~= self.entries@.take(k as int));
                }
                return Some(&self.entries[k].1);
            }
            i = k;
        }
        proof {
            lemma_log_map_suffix_free(self.entries@, 0, path.0@);
        }
        None
    }

    /// Whether no path has been recorded.
    pub fn is_empty(&self) -> (r: bool)
        ensures
            r == (self@ == Map::<Seq<char>, V>::empty()),
    {
        if self.entries.len() == 0 {
            assert(self@ =~= Map::<Seq<char>, V>::empty());
            true
        } else {
            assert(self@.dom().contains(self.entries@.last().0.0@));
            false
        }
    }

    /// Every recording made, oldest first; for a path recorded more than once the last
    /// recording is the one that counts.
    pub fn records(&self) -> (r: &Vec<(ProvenancePath, V)>)
        ensures
            log_map(r@) == self@,
    {
        &self.entries
    }
}

/// Whether `r` lists each path of `m` exactly once, with its value.
pub open spec fn lists_map<V>(r: Seq<(ProvenancePath, V)>, m: Map<Seq<char>, V>) -> bool {
    &&& forall|i: int, j: int| 0 <= i < j < r.len() ==> (#[trigger] r[i]).0.0@ != (#[trigger] r[j]).0.0@
    &&& forall|i: int| 0 <= i < r.len() ==> m.dom().contains((#[trigger] r[i]).0.0@) && r[i].1 == m[r[i].0.0@]
    &&& forall|k: Seq<char>| #[trigger] m.dom().contains(k) ==> exists|i: int| 0 <= i < r.len() && (#[trigger] r[i]).0.0@ == k
}

/// The value of the last entry for a path is the one the log denotes.
proof fn lemma_log_map_last<V>(s: Seq<(ProvenancePath, V)>, j: int)
    requires
        0 <= j < s.len(),
        forall|k: int| j < k < s.len() ==> s[k].0.0@ != s[j].0.0@,
    ensures
        log_map(s).dom().contains(s[j].0.0@),
        log_map(s)[s[j].0.0@] == s[j].1,
{
    lemma_log_map_suffix_free(s, j + 1, s[j].0.0@);
    assert(s.take(j + 1).drop_last() =~= s.take(j));
    assert(s.take(j + 1).last() == s[j]);
}

/// A path the log denotes has an entry in it.
proof fn lemma_log_map_has_entry<V>(s: Seq<(ProvenancePath, V)>, k: Seq<char>)
    requires
        log_map(s).dom().contains(k),
    ensures
        exists|j: int| 0 <= j < s.len() && s[j].0.0@ == k,
{
    if !(exists|j: int| 0 <= j < s.len() && s[j].0.0@ == k) {
        lemma_log_map_suffix_free(s, 0, k);
        assert(s.take(0) =~= Seq::<(ProvenancePath, V)>::empty());
    }
}

impl<V: Stamp> PathMap<V> {
    /// Each recorded path once, with the value that counts for it.
    pub fn latest(&self) -> (r: Vec<(ProvenancePath, V)>)
        ensures
            lists_map(r@, self@),
    {
        let e = &self.entries;
        let n = e.len();
        let mut out: Vec<(ProvenancePath, V)> = Vec::new();
        let ghost mut pos: Seq<int> = Seq::empty();
        let ghost mut owner: Seq<int> = Seq::new(n as nat, |j: int| 0int);
        let mut i: usize = n;
        while i > 0
            invariant
                i <= n == e@.len(),
                pos.len() == out@.len(),
                owner.len() == n,
                forall|a: int, b: int| 0 <= a < b < out@.len() ==> (#[trigger] out@[a]).0.0@ != (#[trigger] out@[b]).0.0@,
                forall|m: int| 0 <= m < out@.len() ==> i <= #[trigger] pos[m] < n && e@[pos[m]].0.0@ == out@[m].0.0@
                    && out@[m].1 == e@[pos[m]].1
                    && forall|j: int| pos[m] < j < n ==> e@[j].0.0@ != out@[m].0.0@,
                forall|j: int| i <= j < n ==> 0 <= #[trigger] owner[j] < out@.len() && out@[owner[j]].0.0@ == e@[j].0.0@,
            decreases i,
        {
            let k = i - 1;
            let mut found = false;
            let mut m: usize = 0;
            while m < out.len()
                invariant
                    m <= out@.len(),
                    !found ==> forall|x: int| 0 <= x < m ==> out@[x].0.0@ != e@[k as int].0.0@,
                    found ==> exists|x: int| 0 <= x < out@.len() && out@[x].0.0@ == e@[k as int].0.0@,
                    k < e@.len(),
                decreases out@.len() - m,
            {
                if str_eq(out[m].0.0.as_str(), e[k].0.0.as_str()) {
                    found = true;
                }
                m = m + 1;
            }
            if found {
                proof {
                    let x = choose|x: int| 0 <= x < out@.len() && out@[x].0.0@ == e@[k as int].0.0@;
                    owner = owner.update(k as int, x);
                }
            } else {
                proof {
                    assert forall|j: int| k < j < n implies e@[j].0.0@ != e@[k as int].0.0@ by {
                        assert(out@[owner[j]].0.0@ == e@[j].0.0@);
                    }
                }
                let path = ProvenancePath(owned(e[k].0.0.as_str()));
                let value = e[k].1.duplicate();
                out.push((path, value));
                proof {
                    pos = pos.push(k as int);
                    owner = owner.update(k as int, out@.len() - 1);
                }
            }
            i = k;
        }
        proof {
            assert forall|m: int| 0 <= m < out@.len() implies self@.dom().contains((#[trigger] out@[m]).0.0@)
                && out@[m].1 == self@[out@[m].0.0@] by {
                lemma_log_map_last(e@, pos[m]);
            }
            assert forall|k: Seq<char>| #[trigger] self@.dom().contains(k) implies exists|x: int| 0 <= x < out@.len() && (#[trigger] out@[x]).0.0@ == k by {
                lemma_log_map_has_entry(e@, k);
                let j = choose|j: int| 0 <= j < e@.len() && e@[j].0.0@ == k;
                assert(out@[owner[j]].0.0@ == k);
            }
        }
        out
    }
}

/// `m` with every key of `keys` mapped to `value`.
pub closed spec fn stamp_keys<V>(m: Map<Seq<char>, V>, keys: Set<Seq<char>>, value: V) -> Map<Seq<char>, V> {
    m.union_prefer_right(Map::new(|k: Seq<char>| keys.contains(k), |k: Seq<char>| value))
}

/// Stamping two key sets one after the other is stamping their union.
pub broadcast proof fn lemma_stamp_union<V>(m: Map<Seq<char>, V>, a: Set<Seq<char>>, b: Set<Seq<char>>, v: V)
    ensures
        #[trigger] stamp_keys(stamp_keys(m, a, v), b, v) == stamp_keys(m, a.union(b), v),
{
    assert(stamp_keys(stamp_keys(m, a, v), b, v) =~= stamp_keys(m, a.union(b), v));
}

/// After stamping, each stamped key maps to the stamp, and every other key keeps its entry
/// (or its absence).
pub proof fn lemma_stamp_keys_lookup<V>(m: Map<Seq<char>, V>, keys: Set<Seq<char>>, v: V, k: Seq<char>)
    ensures
        keys.contains(k) ==> stamp_keys(m, keys, v).dom().contains(k) && stamp_keys(m, keys, v)[k] == v,
        !keys.contains(k) ==> (stamp_keys(m, keys, v).dom().contains(k) == m.dom().contains(k)),
        !keys.contains(k) && m.dom().contains(k) ==> stamp_keys(m, keys, v)[k] == m[k],
{
}

/// Stamping no key leaves the map unchanged.
pub broadcast proof fn lemma_stamp_empty<V>(m: Map<Seq<char>, V>, v: V)
    ensures
        #[trigger] stamp_keys(m, Set::<Seq<char>>::empty(), v) == m,
{
    assert(stamp_keys(m, Set::<Seq<char>>::empty(), v) =~= m);
}

/// The set holding `path` when `value` is present, and nothing otherwise.
pub open spec fn leaf_keys<T>(value: Option<T>, path: Seq<char>) -> Set<Seq<char>> {
    if value is Some {
        set![path]
    } else {
        Set::empty()
    }
}

/// Overwrites `target` with `incoming` when `incoming` holds a value, and then records
/// `stamp` as the provenance of `path`.
pub fn set_field<T, V: Stamp>(
    target: &mut Option<T>,
    incoming: Option<T>,
    provenance: &mut PathMap<V>,
    path: &str,
    stamp: &V,
)
    ensures
        *final(target) == (if incoming is Some { incoming } else { *old(target) }),
        final(provenance)@ == stamp_keys(old(provenance)@, leaf_keys(incoming, path@), *stamp),
{
    match incoming {
        Some(value) => {
            *target = Some(value);
            provenance.insert(ProvenancePath(owned(path)), stamp.duplicate());
            assert(provenance@ =~= stamp_keys(old(provenance)@, set![path@], *stamp));
        },
        None => {
            assert(provenance@ =~= stamp_keys(old(provenance)@, Set::empty(), *stamp));
        },
    }
}

} // verus!
