//! The stack's settings: the registry of parked directories, and the
//! per-project and per-service settings.

use vstd::prelude::*;
use crate::text::{text_eq, views};

verus! {

/// The global settings: the parked directories, whose sub-directories are
/// each served as a site.
pub struct AppConfig {
    pub parked_paths: Vec<String>,
}

impl View for AppConfig {
    type V = Seq<Seq<char>>;

    open spec fn view(&self) -> Seq<Seq<char>> {
        views(self.parked_paths@)
    }
}

/// The settings a project keeps in its own directory: the PHP version it
/// is served with, if it chose one.
pub struct ProjectConfig {
    pub php: Option<String>,
}

/// The settings of one service: the port it listens on.
pub struct ServiceConfig {
    pub port: u16,
}

/// The registry `paths` once `p` is parked: `p` is appended unless it is
/// already there.
pub open spec fn parked(paths: Seq<Seq<char>>, p: Seq<char>) -> Seq<Seq<char>> {
    if paths.contains(p) {
        paths
    } else {
        paths.push(p)
    }
}

/// The registry `paths` once `p` is unparked: every occurrence of `p` is
/// dropped, the others keep their order.
pub open spec fn unparked(paths: Seq<Seq<char>>, p: Seq<char>) -> Seq<Seq<char>>
    decreases paths.len(),
{
    if paths.len() == 0 {
        paths
    } else if paths.last() == p {
        unparked(paths.drop_last(), p)
    } else {
        unparked(paths.drop_last(), p).push(paths.last())
    }
}

impl AppConfig {
    /// The settings of a fresh installation: nothing is parked.
    pub fn new() -> (c: AppConfig)
        ensures
            c@ == Seq::<Seq<char>>::empty(),
    {
        let c = AppConfig { parked_paths: Vec::new() };
        assert(c@ =~= Seq::<Seq<char>>::empty());
        c
    }

    /// Whether `p` is parked.
    pub fn is_parked(&self, p: &str) -> (r: bool)
        ensures
            r == self@.contains(p@),
    {
        let mut i: usize = 0;
        while i < self.parked_paths.len()
            invariant
                i <= self.parked_paths.len(),
                forall|k: int| 0 <= k < i ==> self@[k] != p@,
            decreases self.parked_paths.len() - i,
        {
            if text_eq(self.parked_paths[i].as_str(), p) {
                assert(self@[i as int] == p@);
                return true;
            }
            i = i + 1;
        }
        assert forall|k: int| 0 <= k < self@.len() implies self@[k] != p@ by {
        }
        false
    }
}

/// The parked directories (a copy of the registry).
pub fn get_parked_paths(config: &AppConfig) -> (r: Vec<String>)
    ensures
        views(r@) == config@,
{
    config.parked_paths.clone()
}

/// Parks `path`: appends it to the registry unless it is already there.
/// Returns whether the registry changed (and so has to be saved).
pub fn add_parked_path_logic(config: &mut AppConfig, path: String) -> (changed: bool)
    ensures
        changed == !old(config)@.contains(path@),
        final(config)@ == parked(old(config)@, path@),
{
    if config.is_parked(path.as_str()) {
        false
    } else {
        let ghost before = config@;
        config.parked_paths.push(path);
        assert(config@ =~= before.push(path@));
        true
    }
}

/// Unparks `path`: drops every occurrence of it from the registry.
pub fn remove_parked_path_logic(config: &mut AppConfig, path: &str)
    ensures
        final(config)@ == unparked(old(config)@, path@),
{
    let ghost all = config@;
    let mut kept: Vec<String> = Vec::new();
    let mut i: usize = 0;
    assert(all.take(0) =~= Seq::<Seq<char>>::empty());
    while i < config.parked_paths.len()
        invariant
            all == config@,
            i <= config.parked_paths.len(),
            views(kept@) == unparked(all.take(i as int), path@),
        decreases config.parked_paths.len() - i,
    {
        proof {
            assert(all.take(i + 1).drop_last() =~= all.take(i as int));
        }
        let ghost before = views(kept@);
        if !text_eq(config.parked_paths[i].as_str(), path) {
            kept.push(config.parked_paths[i].clone());
            assert(views(kept@) =~= before.push(all[i as int]));
        }
        i = i + 1;
    }
    assert(all.take(all.len() as int) =~= all);
    config.parked_paths = kept;
}

// ---------------------------------------------------------------------------
// Laws of the registry
// ---------------------------------------------------------------------------

proof fn lemma_contains_split(s: Seq<Seq<char>>, q: Seq<char>)
    requires
        s.len() > 0,
    ensures
        s.contains(q) == (s.drop_last().contains(q) || s.last() == q),
{
    if s.contains(q) {
        let k = choose|k: int| 0 <= k < s.len() && s[k] == q;
        if k < s.len() - 1 {
            assert(s.drop_last()[k] == q);
        }
    }
    if s.drop_last().contains(q) {
        let k = choose|k: int| 0 <= k < s.drop_last().len() && s.drop_last()[k] == q;
        assert(s[k] == q);
    }
    if s.last() == q {
        assert(s[s.len() - 1] == q);
    }
}

proof fn lemma_unparked_contains(paths: Seq<Seq<char>>, p: Seq<char>, q: Seq<char>)
    ensures
        unparked(paths, p).contains(q) == (paths.contains(q) && q != p),
    decreases paths.len(),
{
    if paths.len() > 0 {
        lemma_unparked_contains(paths.drop_last(), p, q);
        lemma_contains_split(paths, q);
        let prev = unparked(paths.drop_last(), p);
        if paths.last() != p {
            let r = prev.push(paths.last());
            assert(r.drop_last() =~= prev);
            lemma_contains_split(r, q);
        }
    } else {
        assert(!paths.contains(q));
    }
}

proof fn lemma_unparked_absent(paths: Seq<Seq<char>>, p: Seq<char>)
    requires
        !paths.contains(p),
    ensures
        unparked(paths, p) == paths,
    decreases paths.len(),
{
    if paths.len() > 0 {
        assert(!paths.drop_last().contains(p)) by {
            if paths.drop_last().contains(p) {
                let k = choose|k: int| 0 <= k < paths.drop_last().len() && paths.drop_last()[k] == p;
                assert(paths[k] == p);
            }
        }
        assert(paths.last() != p) by {
            assert(paths[paths.len() - 1] == paths.last());
        }
        lemma_unparked_absent(paths.drop_last(), p);
        assert(paths.drop_last().push(paths.last()) =~= paths);
    }
}

proof fn lemma_unparked_no_duplicates(paths: Seq<Seq<char>>, p: Seq<char>)
    requires
        paths.no_duplicates(),
    ensures
        unparked(paths, p).no_duplicates(),
    decreases paths.len(),
{
    if paths.len() > 0 {
        let init = paths.drop_last();
        assert(init.no_duplicates()) by {
            assert forall|i: int, j: int|
                0 <= i < init.len() && 0 <= j < init.len() && i != j implies init[i] != init[j] by {
                assert(paths[i] == init[i] && paths[j] == init[j]);
            }
        }
        lemma_unparked_no_duplicates(init, p);
        if paths.last() != p {
            let prev = unparked(init, p);
            lemma_unparked_contains(init, p, paths.last());
            assert(!init.contains(paths.last())) by {
                if init.contains(paths.last()) {
                    let k = choose|k: int| 0 <= k < init.len() && init[k] == paths.last();
                    assert(paths[k] == paths[paths.len() - 1]);
                }
            }
            let r = prev.push(paths.last());
            assert forall|i: int, j: int|
                0 <= i < r.len() && 0 <= j < r.len() && i != j implies r[i] != r[j] by {
                if i < prev.len() && j < prev.len() {
                } else if i < prev.len() {
                    assert(prev.contains(prev[i]));
                } else if j < prev.len() {
                    assert(prev.contains(prev[j]));
                }
            }
        }
    }
}

/// After parking `p`, `p` is parked, and nothing else changed membership.
pub proof fn law_park_then_contains(paths: Seq<Seq<char>>, p: Seq<char>, q: Seq<char>)
    ensures
        parked(paths, p).contains(p),
        q != p ==> (parked(paths, p).contains(q) == paths.contains(q)),
{
    if !paths.contains(p) {
        assert(paths.push(p)[paths.len() as int] == p);
        if q != p && paths.push(p).contains(q) {
            let k = choose|k: int| 0 <= k < paths.push(p).len() && paths.push(p)[k] == q;
            assert(paths[k] == q);
        }
        if paths.contains(q) {
            let k = choose|k: int| 0 <= k < paths.len() && paths[k] == q;
            assert(paths.push(p)[k] == q);
        }
    }
}

/// Parking is idempotent: parking a path twice is parking it once.
pub proof fn law_park_idempotent(paths: Seq<Seq<char>>, p: Seq<char>)
    ensures
        parked(parked(paths, p), p) == parked(paths, p),
{
    law_park_then_contains(paths, p, p);
}

/// Parking never introduces a duplicate into a registry that has none.
pub proof fn law_park_keeps_unique(paths: Seq<Seq<char>>, p: Seq<char>)
    requires
        paths.no_duplicates(),
    ensures
        parked(paths, p).no_duplicates(),
{
    if !paths.contains(p) {
        let r = paths.push(p);
        assert forall|i: int, j: int|
            0 <= i < r.len() && 0 <= j < r.len() && i != j implies r[i] != r[j] by {
            if i < paths.len() && j < paths.len() {
            } else if i < paths.len() {
                assert(paths.contains(paths[i]));
            } else if j < paths.len() {
                assert(paths.contains(paths[j]));
            }
        }
    }
}

/// After unparking `p`, `p` is no longer parked, every other path keeps its
/// membership, and a registry without duplicates stays without.
pub proof fn law_unpark_removes(paths: Seq<Seq<char>>, p: Seq<char>, q: Seq<char>)
    ensures
        !unparked(paths, p).contains(p),
        q != p ==> (unparked(paths, p).contains(q) == paths.contains(q)),
        paths.no_duplicates() ==> unparked(paths, p).no_duplicates(),
{
    lemma_unparked_contains(paths, p, p);
    lemma_unparked_contains(paths, p, q);
    if paths.no_duplicates() {
        lemma_unparked_no_duplicates(paths, p);
    }
}

/// Unparking a path that was not parked leaves the registry unchanged.
pub proof fn law_unpark_absent(paths: Seq<Seq<char>>, p: Seq<char>)
    requires
        !paths.contains(p),
    ensures
        unparked(paths, p) == paths,
{
    lemma_unparked_absent(paths, p);
}

/// Parking a path that was not parked, then unparking it, gives back the
/// registry as it was.
pub proof fn law_park_then_unpark(paths: Seq<Seq<char>>, p: Seq<char>)
    requires
        !paths.contains(p),
    ensures
        unparked(parked(paths, p), p) == paths,
{
    assert(paths.push(p).drop_last() =~= paths);
    lemma_unparked_absent(paths, p);
}

} // verus!
