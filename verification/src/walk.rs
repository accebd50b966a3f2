//! The rules of a global search: which entries of the tree below the start
//! directory are listed, and which directories are entered. Reading the
//! directories is left to the caller, which asks these rules at each entry.
use vstd::prelude::*;

use crate::app_state::App;
use crate::settings::copy_strings;
use crate::text::{ascii_lower_seq, fuzzy_contains, is_subsequence, str_eq, to_ascii_lowercase};

verus! {

/// What a global search looks for and how deep it goes: the query in ASCII
/// lower case, the deepest level that is read (the start directory is level
/// 0), and the names of directories that are never entered.
pub struct WalkRules {
    pub query: String,
    pub max_depth: usize,
    pub ignored_dirs: Vec<String>,
}

impl WalkRules {
    /// An entry of this name is listed: the query is empty, or occurs in the
    /// name, lowered to ASCII lower case, as a subsequence.
    pub open spec fn is_hit(&self, name: Seq<char>) -> bool {
        self.query@.len() == 0 || is_subsequence(self.query@, ascii_lower_seq(name))
    }

    /// A directory of this name is never entered.
    pub open spec fn is_ignored(&self, name: Seq<char>) -> bool {
        exists|i: int| 0 <= i < self.ignored_dirs@.len() && #[trigger] self.ignored_dirs@[i]@ == name
    }

    /// The rules of a search for `query`.
    pub fn new(query: &str, max_depth: usize, ignored_dirs: Vec<String>) -> (r: WalkRules)
        ensures
            r.query@ == ascii_lower_seq(query@),
            r.max_depth == max_depth,
            r.ignored_dirs@ == ignored_dirs@,
    {
        WalkRules { query: to_ascii_lowercase(query), max_depth, ignored_dirs }
    }

    /// A directory at level `depth` is read.
    pub fn reads_level(&self, depth: usize) -> (r: bool)
        ensures
            r == (depth <= self.max_depth),
    {
        depth <= self.max_depth
    }

    /// What happens to one entry of a directory that was read: whether it is
    /// listed, and whether it is entered (a directory not ignored; the
    /// level below is read only where `reads_level` allows it).
    pub fn visit(&self, name: &str, is_dir: bool) -> (r: (bool, bool))
        ensures
            r.0 == self.is_hit(name@),
            r.1 == (is_dir && !self.is_ignored(name@)),
    {
        let lowered = to_ascii_lowercase(name);
        let hit = fuzzy_contains(lowered.as_str(), self.query.as_str());
        if !is_dir {
            return (hit, false);
        }
        let mut i: usize = 0;
        while i < self.ignored_dirs.len()
            invariant
                i <= self.ignored_dirs@.len(),
                hit == self.is_hit(name@),
                forall|j: int| 0 <= j < i ==> #[trigger] self.ignored_dirs@[j]@ != name@,
            decreases self.ignored_dirs@.len() - i,
        {
            if str_eq(self.ignored_dirs[i].as_str(), name) {
                return (hit, false);
            }
            i += 1;
        }
        (hit, true)
    }
}

impl App {
    /// The rules of the global search for the current query, with the search
    /// settings in force.
    pub fn global_walk_rules(&self) -> (r: WalkRules)
        ensures
            r.query@ == ascii_lower_seq(self.search_query@),
            r.max_depth == self.effective.search.max_depth,
            r.ignored_dirs@ == self.effective.search.ignored_dirs@,
    {
        WalkRules::new(
            self.search_query.as_str(),
            self.effective.search.max_depth,
            copy_strings(&self.effective.search.ignored_dirs),
        )
    }
}

} // verus!
