//! Filesystem paths, with POSIX semantics, and the default directory layout.
//!
//! Paths are held as strings. `path_is_absolute` and `path_join` state what `std::path`
//! does on Unix: a path is absolute when it starts with `/`, and joining an absolute path
//! replaces the base while joining a relative one appends it after a separator.
use vstd::prelude::*;
use crate::text::{chars_of, concat, owned, string_from_chars};

verus! {

/// Whether `p` is an absolute path.
pub open spec fn path_is_absolute(p: Seq<char>) -> bool {
    p.len() > 0 && p[0] == '/'
}

/// `base` joined with `rel`.
pub open spec fn path_join(base: Seq<char>, rel: Seq<char>) -> Seq<char> {
    if path_is_absolute(rel) {
        rel
    } else if base.len() > 0 && base.last() != '/' {
        base + seq!['/'] + rel
    } else {
        base + rel
    }
}

/// `p` itself when absolute, otherwise `p` joined onto `root`.
pub open spec fn absolute_in(p: Seq<char>, root: Seq<char>) -> Seq<char> {
    if path_is_absolute(p) {
        p
    } else {
        path_join(root, p)
    }
}

/// Whether the path `p` is absolute.
pub fn is_absolute(p: &str) -> (r: bool)
    ensures
        r == path_is_absolute(p@),
{
    let v = chars_of(p);
    v.len() > 0 && v[0] == '/'
}

/// The path `base` joined with `rel`.
pub fn join(base: &str, rel: &str) -> (r: String)
    ensures
        r@ == path_join(base@, rel@),
{
    if is_absolute(rel) {
        return owned(rel);
    }
    let b = chars_of(base);
    if b.len() > 0 && b[b.len() - 1] != '/' {
        let with_sep = concat(base, "/");
        proof {
            reveal_strlit("/");
        }
        concat(with_sep.as_str(), rel)
    } else {
        concat(base, rel)
    }
}

/// `path` unchanged when absolute, otherwise joined onto `root`.
pub fn make_absolute(path: String, root: &str) -> (r: String)
    ensures
        r@ == absolute_in(path@, root@),
{
    if is_absolute(path.as_str()) {
        path
    } else {
        join(root, path.as_str())
    }
}

/// The default directory layout under a project root.
#[derive(Debug, Clone, PartialEq, Eq)]
pub struct DefaultPaths {
    pub root: String,
    pub state_dir: String,
    pub cache_dir: String,
    pub logs_dir: String,
}

/// Whether `d` is the default layout under `root`: state in `<root>/.greentic`, with
/// `cache` and `logs` inside the state directory.
pub open spec fn default_layout(d: DefaultPaths, root: Seq<char>) -> bool {
    &&& d.root@ == root
    &&& d.state_dir@ == path_join(root, ".greentic"@)
    &&& d.cache_dir@ == path_join(d.state_dir@, "cache"@)
    &&& d.logs_dir@ == path_join(d.state_dir@, "logs"@)
}

impl DefaultPaths {
    /// The default layout under `root`.
    pub fn from_root(root: &str) -> (r: Self)
        ensures
            default_layout(r, root@),
    {
        let state_dir = join(root, ".greentic");
        let cache_dir = join(state_dir.as_str(), "cache");
        let logs_dir = join(state_dir.as_str(), "logs");
        DefaultPaths { root: owned(root), state_dir, cache_dir, logs_dir }
    }
}

/// What `std::path::Path::parent` returns for `p` (on Unix).
pub uninterp spec fn path_parent(p: Seq<char>) -> Option<Seq<char>>;

/// Trusted: `std::path::Path::parent`. Its result depends on `p` alone; the source returns a
/// slice of `p` that ends before `p`'s last component, so it is a strictly shorter prefix.
#[verifier::external_body]
fn parent_of(p: &str) -> (r: Option<String>)
    ensures
        r is Some == path_parent(p@) is Some,
        r matches Some(q) ==> q@ == path_parent(p@)->0 && q@.len() < p@.len(),
{
    std::path::Path::new(p).parent().map(|q| q.to_string_lossy().into_owned())
}

/// Trusted: `std::path::Path::is_dir`. It reads the filesystem, so nothing is stated of its result.
#[verifier::external_body]
fn dir_exists(p: &str) -> bool {
    std::path::Path::new(p).is_dir()
}

/// Trusted: `std::path::Path::is_file`. It reads the filesystem, so nothing is stated of its result.
#[verifier::external_body]
fn file_exists(p: &str) -> bool {
    std::path::Path::new(p).is_file()
}

/// The `n`-th ancestor of `start` (`start` itself is the 0-th), following `Path::parent`.
pub open spec fn nth_ancestor(start: Seq<char>, n: nat) -> Option<Seq<char>>
    decreases n,
{
    if n == 0 {
        Some(start)
    } else {
        match nth_ancestor(start, (n - 1) as nat) {
            Some(p) => path_parent(p),
            None => None,
        }
    }
}

/// Whether `a` is `start` or one of its ancestors.
pub open spec fn is_ancestor(start: Seq<char>, a: Seq<char>) -> bool {
    exists|n: nat| nth_ancestor(start, n) == Some(a)
}

/// The entries whose presence in `dir` marks a project root, each with whether it must be a
/// directory (`true`) or a regular file (`false`): a `.greentic` directory, a `.git`
/// directory, or a `Cargo.toml` file, in the order they are looked at.
pub open spec fn marker_probe_list(dir: Seq<char>) -> Seq<(Seq<char>, bool)> {
    seq![
        (path_join(dir, ".greentic"@), true),
        (path_join(dir, ".git"@), true),
        (path_join(dir, "Cargo.toml"@), false),
    ]
}

/// The entries of `dir` that mark a project root, in the order they are looked at.
pub fn marker_probes(dir: &str) -> (r: Vec<(String, bool)>)
    ensures
        r@.len() == 3,
        forall|i: int| 0 <= i < 3 ==> (#[trigger] r@[i]).0@ == marker_probe_list(dir@)[i].0
            && r@[i].1 == marker_probe_list(dir@)[i].1,
{
    let mut r: Vec<(String, bool)> = Vec::new();
    r.push((join(dir, ".greentic"), true));
    r.push((join(dir, ".git"), true));
    r.push((join(dir, "Cargo.toml"), false));
    r
}

/// Whether any of the probe outcomes found its entry.
pub open spec fn any_found(outcomes: Seq<bool>) -> bool {
    exists|i: int| 0 <= i < outcomes.len() && outcomes[i]
}

/// Whether the directory whose probes gave `outcomes` marks a project root: one of its
/// entries was found.
pub fn marker_found(outcomes: &Vec<bool>) -> (r: bool)
    ensures
        r == any_found(outcomes@),
{
    let mut i: usize = 0;
    while i < outcomes.len()
        invariant
            i <= outcomes@.len(),
            forall|j: int| 0 <= j < i ==> !outcomes@[j],
        decreases outcomes@.len() - i,
    {
        if outcomes[i] {
            return true;
        }
        i = i + 1;
    }
    false
}

/// The outcomes of looking up the entries of `marker_probes(dir)` on disk, in that order (a
/// directory with `Path::is_dir`, a file with `Path::is_file`), stopping at the first entry
/// found. What the disk holds decides each outcome, so the contract states only that the
/// probes go in order and stop exactly at the first one found.
fn probe_outcomes(dir: &str) -> (r: Vec<bool>)
    ensures
        1 <= r@.len() <= 3,
        forall|i: int| 0 <= i < r@.len() - 1 ==> !r@[i],
        r@.len() < 3 ==> r@.last(),
{
    let probes = marker_probes(dir);
    let mut outcomes: Vec<bool> = Vec::new();
    let mut i: usize = 0;
    while i < probes.len()
        invariant
            probes@.len() == 3,
            i <= 3,
            outcomes@.len() == i,
            forall|j: int| 0 <= j < i ==> !outcomes@[j],
        decreases 3 - i,
    {
        let found = if probes[i].1 {
            dir_exists(probes[i].0.as_str())
        } else {
            file_exists(probes[i].0.as_str())
        };
        outcomes.push(found);
        if found {
            return outcomes;
        }
        i = i + 1;
    }
    outcomes
}

/// Whether `dir` marks a project root, as `marker_found` decides from `probe_outcomes`.
fn has_project_marker(dir: &str) -> bool {
    let outcomes = probe_outcomes(dir);
    marker_found(&outcomes)
}

/// Whether `chain` is `start` followed by each of its ancestors in turn, up to the one that
/// has no parent.
pub open spec fn is_ancestor_chain(start: Seq<char>, chain: Seq<String>) -> bool {
    &&& forall|i: int| 0 <= i < chain.len() ==> nth_ancestor(start, i as nat) == Some(#[trigger] chain[i]@)
    &&& nth_ancestor(start, chain.len()) is None
}

/// `start` and its ancestors, nearest first, as `Path::ancestors` lists them.
pub fn ancestors(start: &str) -> (r: Vec<String>)
    ensures
        is_ancestor_chain(start@, r@),
{
    let mut chain: Vec<String> = Vec::new();
    let mut current = owned(start);
    chain.push(owned(start));
    loop
        invariant
            chain@.len() > 0,
            current@ == chain@.last()@,
            forall|i: int| 0 <= i < chain@.len() ==> nth_ancestor(start@, i as nat) == Some(#[trigger] chain@[i]@),
        decreases current@.len(),
    {
        let ghost n: nat = (chain@.len() - 1) as nat;
        assert(nth_ancestor(start@, n) == Some(current@));
        match parent_of(current.as_str()) {
            Some(p) => {
                assert(nth_ancestor(start@, n + 1) == Some(p@));
                chain.push(owned(p.as_str()));
                current = p;
            },
            None => {
                assert(nth_ancestor(start@, chain@.len()) is None);
                return chain;
            },
        }
    }
}

/// The index of the first set entry of `marked`, if any.
pub open spec fn first_set(marked: Seq<bool>) -> Option<int>
    decreases marked.len(),
{
    if marked.len() == 0 {
        None
    } else {
        match first_set(marked.drop_last()) {
            Some(i) => Some(i),
            None => if marked.last() {
                Some(marked.len() - 1)
            } else {
                None
            },
        }
    }
}

/// `first_set` is the index of the first set entry, and `None` exactly when none is set.
proof fn lemma_first_set(marked: Seq<bool>)
    ensures
        match first_set(marked) {
            Some(i) => 0 <= i < marked.len() && marked[i] && forall|j: int| 0 <= j < i ==> !marked[j],
            None => forall|j: int| 0 <= j < marked.len() ==> !marked[j],
        },
    decreases marked.len(),
{
    if marked.len() > 0 {
        let rest = marked.drop_last();
        lemma_first_set(rest);
        assert forall|j: int| 0 <= j < rest.len() implies rest[j] == marked[j] by {}
    }
}

/// The first of `dirs` whose entry in `marked` is set, where `marked` holds an entry for each
/// of the first `marked.len()` directories.
pub fn nearest_marked(dirs: &Vec<String>, marked: &Vec<bool>) -> (r: Option<String>)
    requires
        marked.len() <= dirs.len(),
    ensures
        match first_set(marked@) {
            Some(i) => r is Some && r->0@ == dirs@[i]@,
            None => r is None,
        },
{
    proof {
        lemma_first_set(marked@);
    }
    let mut i: usize = 0;
    while i < marked.len()
        invariant
            i <= marked.len() <= dirs.len(),
            forall|j: int| 0 <= j < i ==> !marked@[j],
            match first_set(marked@) {
                Some(k) => 0 <= k < marked@.len() && marked@[k] && forall|j: int| 0 <= j < k ==> !marked@[j],
                None => forall|j: int| 0 <= j < marked@.len() ==> !marked@[j],
            },
        decreases marked.len() - i,
    {
        if marked[i] {
            proof {
                if let Some(k) = first_set(marked@) {
                    if k < i {
                        assert(!marked@[k]);
                    }
                    if i < k {
                        assert(!marked@[i as int]);
                    }
                }
            }
            return Some(owned(dirs[i].as_str()));
        }
        i = i + 1;
    }
    None
}

/// The nearest of `start` and its ancestors that holds a `.greentic` directory, a `.git`
/// directory or a `Cargo.toml` file. The candidates are `ancestors(start)`, nearest first;
/// each is checked for the entries of `marker_probes` on disk, stopping at the first that
/// holds one, and `nearest_marked` picks the answer from what the checks found. What the disk
/// holds decides, so the contract says only that an answer is `start` or one of its
/// ancestors, and `None` is a possible answer for every `start`.
pub fn discover_project_root(start: &str) -> (r: Option<String>)
    ensures
        r matches Some(a) ==> is_ancestor(start@, a@),
{
    let chain = ancestors(start);
    let mut marked: Vec<bool> = Vec::new();
    let mut i: usize = 0;
    while i < chain.len()
        invariant
            i <= chain.len(),
            marked@.len() == i,
        decreases chain.len() - i,
    {
        let found = has_project_marker(chain[i].as_str());
        marked.push(found);
        i = i + 1;
        if found {
            break;
        }
    }
    let r = nearest_marked(&chain, &marked);
    proof {
        lemma_first_set(marked@);
        if let Some(k) = first_set(marked@) {
            assert(is_ancestor_chain(start@, chain@));
            assert(nth_ancestor(start@, k as nat) == Some(chain@[k]@));
        }
    }
    r
}

} // verus!
