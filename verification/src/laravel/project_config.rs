//! The process-wide cached snapshot of the project's routes and tables.
//!
//! Completion providers only ever read the last successfully fetched
//! snapshot; a failed refresh keeps the previous one (stale but available
//! beats unavailable). A refresh is asked for exactly when the edited
//! document's base name stands on a fixed watch-list; the fetch itself is
//! the host's business and its outcome is handed back in, so deciding and
//! fetching never block one another.

use vstd::prelude::*;

use vstd::string::StrSliceExecFns;
use vstd::string::StringExecFns;

use crate::laravel::routes::Route;
use crate::laravel::tables::Tables;

verus! {

/// The fixed watch-list: the base names whose edits invalidate the cache.
pub open spec fn watch_list() -> Seq<Seq<char>> {
    seq!["web.php"@]
}

/// The base name of a path: everything after the last slash, the whole
/// path when it holds no slash, empty when it ends with one.
pub open spec fn base_name(p: Seq<char>) -> Seq<char>
    decreases p.len(),
{
    if p.len() == 0 {
        p
    } else if p.last() == '/' {
        Seq::empty()
    } else {
        base_name(p.drop_last()).push(p.last())
    }
}

/// Whether editing a document at `p` must trigger a cache refresh.
pub open spec fn watch_listed(p: Seq<char>) -> bool {
    watch_list().contains(base_name(p))
}

/// The index where the base name of `p` starts: right after the last
/// slash, or zero when there is none.
pub open spec fn cut(p: Seq<char>) -> int
    decreases p.len(),
{
    if p.len() == 0 {
        0
    } else if p.last() == '/' {
        p.len() as int
    } else {
        cut(p.drop_last())
    }
}

pub proof fn lemma_cut_bounds(p: Seq<char>)
    ensures
        0 <= cut(p) <= p.len(),
    decreases p.len(),
{
    if p.len() == 0 {
    } else if p.last() == '/' {
    } else {
        lemma_cut_bounds(p.drop_last());
    }
}

/// The base name is exactly the suffix of `p` starting at `cut(p)`.
pub proof fn lemma_base_name_subrange(p: Seq<char>)
    ensures
        base_name(p) == p.subrange(cut(p), p.len() as int),
    decreases p.len(),
{
    lemma_cut_bounds(p);
    if p.len() == 0 {
        assert(base_name(p) =~= p.subrange(0, 0));
    } else if p.last() == '/' {
        assert(base_name(p) =~= p.subrange(p.len() as int, p.len() as int));
    } else {
        lemma_base_name_subrange(p.drop_last());
        lemma_cut_bounds(p.drop_last());
        assert(p.subrange(cut(p), p.len() as int) =~= p.drop_last().subrange(
            cut(p.drop_last()),
            p.drop_last().len() as int,
        ).push(p.last()));
    }
}

/// The next snapshot version, wrapping at the type's top.
pub open spec fn version_next(v: u64) -> u64 {
    if v == u64::MAX {
        0
    } else {
        (v + 1) as u64
    }
}

/// The versioned snapshot of the project's routes and tables.
pub struct ProjectConfig {
    pub routes: Vec<Route>,
    pub tables: Tables,
    pub version: u64,
}

impl ProjectConfig {
    /// A snapshot over already-fetched data, at version zero.
    pub fn new(routes: Vec<Route>, tables: Tables) -> (c: ProjectConfig)
        ensures
            c.routes == routes,
            c.tables == tables,
            c.version == 0,
    {
        ProjectConfig { routes, tables, version: 0 }
    }

    /// Decide whether an edit of the document at `path` must trigger a
    /// refresh: exactly when the path's base name stands on the watch-list.
    /// Deciding reads the snapshot and never changes it.
    pub fn should_update_config(&self, path: &str) -> (r: bool)
        ensures
            r == watch_listed(path@),
    {
        let n = path.unicode_len();
        let mut cutpos: usize = 0;
        let mut i: usize = 0;
        while i < n
            invariant
                n == path@.len(),
                i <= n,
                cutpos <= i,
                cutpos as int == cut(path@.subrange(0, i as int)),
            decreases n - i,
        {
            let c = path.get_char(i);
            proof {
                assert(path@.subrange(0, i + 1).drop_last() =~= path@.subrange(0, i as int));
                assert(path@.subrange(0, i + 1).last() == path@[i as int]);
            }
            if c == '/' {
                cutpos = i + 1;
            }
            i = i + 1;
        }
        proof {
            assert(path@.subrange(0, n as int) =~= path@);
            lemma_base_name_subrange(path@);
        }
        let base = path.substring_char(cutpos, n).to_owned();
        let hit = base == String::from_str("web.php");
        proof {
            if base@ == "web.php"@ {
                assert(watch_list()[0] == base_name(path@));
                assert(watch_listed(path@));
            } else {
                assert(!watch_listed(path@)) by {
                    assert forall|j: int| 0 <= j < watch_list().len() implies watch_list()[j]
                        != base_name(path@) by {
                        assert(watch_list()[0] == "web.php"@);
                    }
                }
            }
        }
        hit
    }

    /// The single refresh entry point: apply the outcome the host's fetch
    /// came back with. A successful fetch replaces the routes and moves the
    /// snapshot to the next version; a failed fetch (`None`) leaves the
    /// whole snapshot untouched, version included.
    pub fn apply_refresh(&mut self, fetched: Option<Vec<Route>>)
        ensures
            match fetched {
                Some(rs) => final(self).routes == rs && final(self).version == version_next(
                    old(self).version,
                ),
                None => final(self).routes == old(self).routes && final(self).version == old(
                    self,
                ).version,
            },
            final(self).tables == old(self).tables,
    {
        match fetched {
            Some(rs) => {
                self.routes = rs;
                self.version = if self.version == u64::MAX {
                    0
                } else {
                    self.version + 1
                };
            },
            None => {},
        }
    }
}

} // verus!
