//! The match reporter: the settings of one run, and what the run does with
//! each result that the directory walk hands it.

use vstd::prelude::*;
use crate::filter::{hidden_name, library_name, prune_name, should_prune};
use crate::pattern::{regex_compiles, regex_finds, Pattern};

verus! {

/// One entry found by the walk.
pub struct Entry {
    /// The full path, as printed.
    pub path: String,
    /// The base name.
    pub name: String,
    /// Base names of the directories between the root and the entry, root excluded.
    pub ancestors: Vec<String>,
    /// Whether this entry is the root of the walk.
    pub is_root: bool,
}

pub ghost struct EntryView {
    pub path: Seq<char>,
    pub name: Seq<char>,
    pub ancestors: Seq<Seq<char>>,
    pub is_root: bool,
}

impl View for Entry {
    type V = EntryView;

    open spec fn view(&self) -> EntryView {
        EntryView {
            path: self.path@,
            name: self.name@,
            ancestors: self.ancestors@.map_values(|a: String| a@),
            is_root: self.is_root,
        }
    }
}

/// What the walk hands over: an entry, or the message of a failure on one entry.
pub enum WalkItem {
    Found(Entry),
    Failed(String),
}

pub ghost enum WalkItemView {
    Found(EntryView),
    Failed(Seq<char>),
}

impl View for WalkItem {
    type V = WalkItemView;

    open spec fn view(&self) -> WalkItemView {
        match self {
            WalkItem::Found(e) => WalkItemView::Found(e@),
            WalkItem::Failed(m) => WalkItemView::Failed(m@),
        }
    }
}

/// What a run does with one walk result.
#[derive(Debug)]
pub enum Emit {
    /// Print this path as a line of output.
    Path(String),
    /// Report this failure; the walk goes on.
    Diagnostic(String),
    /// Nothing to print.
    Nothing,
}

/// Why a run cannot start.
#[derive(Debug)]
pub enum ConfigError {
    /// The search pattern does not compile.
    InvalidPattern(String),
    /// The exclusion pattern is not empty and does not compile.
    InvalidExclusion(String),
    /// The root directory does not exist.
    MissingRoot(String),
}

/// The immutable settings of one run.
pub struct Settings {
    root: String,
    pattern: Pattern,
    exclusion: Option<Pattern>,
}

pub ghost struct SettingsView {
    pub root: Seq<char>,
    pub pattern: Seq<char>,
    pub exclusion: Option<Seq<char>>,
}

impl View for Settings {
    type V = SettingsView;

    closed spec fn view(&self) -> SettingsView {
        SettingsView {
            root: self.root@,
            pattern: self.pattern@,
            exclusion: match self.exclusion {
                Some(p) => Some(p@),
                None => None,
            },
        }
    }
}

/// The root to walk: the given one, or else the working directory.
pub open spec fn root_of(given: Option<Seq<char>>, cwd: Seq<char>) -> Seq<char> {
    match given {
        Some(r) => r,
        None => cwd,
    }
}

/// The entry lies in a pruned subtree: it is not the root, and its own name
/// or the name of a directory above it is pruned.
pub open spec fn in_pruned_subtree(e: EntryView) -> bool {
    !e.is_root && (prune_name(e.name) || exists|i: int|
        0 <= i < e.ancestors.len() && prune_name(#[trigger] e.ancestors[i]))
}

/// The exclusion pattern is set and matches the full path.
pub open spec fn excluded(s: SettingsView, e: EntryView) -> bool {
    match s.exclusion {
        Some(x) => regex_finds(x, e.path),
        None => false,
    }
}

/// The entry's path is printed: it is not in a pruned subtree, the search
/// pattern matches its base name, and it is not excluded.
pub open spec fn reported(s: SettingsView, e: EntryView) -> bool {
    !in_pruned_subtree(e) && regex_finds(s.pattern, e.name) && !excluded(s, e)
}

/// The paths printed for a sequence of walk results, in order.
pub open spec fn reported_paths(s: SettingsView, items: Seq<WalkItemView>) -> Seq<Seq<char>>
    decreases items.len(),
{
    if items.len() == 0 {
        Seq::empty()
    } else {
        let rest = reported_paths(s, items.drop_last());
        match items.last() {
            WalkItemView::Found(e) => if reported(s, e) {
                rest.push(e.path)
            } else {
                rest
            },
            WalkItemView::Failed(_) => rest,
        }
    }
}

/// The walk result `it` is an entry whose path `p` is printed.
pub open spec fn item_reports(s: SettingsView, it: WalkItemView, p: Seq<char>) -> bool {
    match it {
        WalkItemView::Found(e) => reported(s, e) && e.path == p,
        WalkItemView::Failed(_) => false,
    }
}

/// The root of the walk: `given` if there is one, else `cwd`.
pub fn resolve_root(given: Option<String>, cwd: String) -> (r: String)
    ensures
        r@ == root_of(
            match given {
                Some(g) => Some(g@),
                None => None,
            },
            cwd@,
        ),
{
    match given {
        Some(g) => g,
        None => cwd,
    }
}

/// Whether some ancestor name is pruned.
fn any_ancestor_pruned(ancestors: &Vec<String>) -> (r: bool)
    ensures
        r == exists|i: int| 0 <= i < ancestors@.len() && prune_name(#[trigger] ancestors@[i]@),
{
    let mut i: usize = 0;
    while i < ancestors.len()
        invariant
            i <= ancestors@.len(),
            forall|k: int| 0 <= k < i ==> !prune_name(#[trigger] ancestors@[k]@),
        decreases ancestors@.len() - i,
    {
        if should_prune(ancestors[i].as_str()) {
            return true;
        }
        i = i + 1;
    }
    false
}

impl Settings {
    /// Checks the configuration of a run before any walking: the search
    /// pattern, then the exclusion pattern (empty means none), then that the
    /// root exists.
    pub fn new(root: String, root_exists: bool, pattern: &str, exclusion: &str) -> (r: Result<
        Settings,
        ConfigError,
    >)
        ensures
            r is Ok <==> regex_compiles(pattern@) && (exclusion@.len() == 0 || regex_compiles(
                exclusion@,
            )) && root_exists,
            r matches Err(ConfigError::InvalidPattern(p)) ==> p@ == pattern@,
            !regex_compiles(pattern@) <==> r matches Err(ConfigError::InvalidPattern(_)),
            r matches Err(ConfigError::InvalidExclusion(p)) ==> p@ == exclusion@,
            (regex_compiles(pattern@) && exclusion@.len() != 0 && !regex_compiles(exclusion@))
                <==> r matches Err(ConfigError::InvalidExclusion(_)),
            r matches Err(ConfigError::MissingRoot(p)) ==> p@ == root@,
            (regex_compiles(pattern@) && (exclusion@.len() == 0 || regex_compiles(exclusion@))
                && !root_exists) <==> r matches Err(ConfigError::MissingRoot(_)),
            r matches Ok(s) ==> s@ == (SettingsView {
                root: root@,
                pattern: pattern@,
                exclusion: if exclusion@.len() == 0 {
                    None
                } else {
                    Some(exclusion@)
                },
            }),
    {
        let inc = match Pattern::new(pattern) {
            Some(p) => p,
            None => return Err(ConfigError::InvalidPattern(String::from_str(pattern))),
        };
        let exc = if exclusion.unicode_len() == 0 {
            None
        } else {
            match Pattern::new(exclusion) {
                Some(p) => Some(p),
                None => return Err(ConfigError::InvalidExclusion(String::from_str(exclusion))),
            }
        };
        if !root_exists {
            return Err(ConfigError::MissingRoot(root));
        }
        Ok(Settings { root, pattern: inc, exclusion: exc })
    }

    /// The root directory of the run.
    pub fn root(&self) -> (r: &str)
        ensures
            r@ == self@.root,
    {
        self.root.as_str()
    }

    /// Whether the entry's path is printed.
    pub fn reports(&self, e: &Entry) -> (r: bool)
        ensures
            r == reported(self@, e@),
    {
        if !e.is_root {
            if should_prune(e.name.as_str()) {
                return false;
            }
            let pruned = any_ancestor_pruned(&e.ancestors);
            assert(pruned == exists|i: int|
                0 <= i < e@.ancestors.len() && prune_name(#[trigger] e@.ancestors[i])) by {
                if pruned {
                    let i = choose|i: int|
                        0 <= i < e.ancestors@.len() && prune_name(#[trigger] e.ancestors@[i]@);
                    assert(e@.ancestors[i] == e.ancestors@[i]@);
                } else {
                    assert forall|i: int| 0 <= i < e@.ancestors.len() implies !prune_name(
                        #[trigger] e@.ancestors[i],
                    ) by {
                        assert(e@.ancestors[i] == e.ancestors@[i]@);
                    }
                }
            }
            if pruned {
                return false;
            }
        }
        if !self.pattern.is_match(e.name.as_str()) {
            return false;
        }
        match &self.exclusion {
            Some(x) => !x.is_match(e.path.as_str()),
            None => true,
        }
    }

    /// What to do with one walk result: print a reported path, pass a
    /// failure on as a diagnostic, or nothing. A failure never stops the walk.
    pub fn handle(&self, item: &WalkItem) -> (r: Emit)
        ensures
            match item@ {
                WalkItemView::Found(e) => if reported(self@, e) {
                    r matches Emit::Path(p) && p@ == e.path
                } else {
                    r is Nothing
                },
                WalkItemView::Failed(m) => r matches Emit::Diagnostic(d) && d@ == m,
            },
    {
        match item {
            WalkItem::Found(e) => if self.reports(e) {
                Emit::Path(e.path.clone())
            } else {
                Emit::Nothing
            },
            WalkItem::Failed(m) => Emit::Diagnostic(m.clone()),
        }
    }

    /// The paths printed for a whole sequence of walk results, in order.
    pub fn collect_output(&self, items: &Vec<WalkItem>) -> (r: Vec<String>)
        ensures
            r@.map_values(|p: String| p@) == reported_paths(self@, items@.map_values(|it: WalkItem| it@)),
    {
        let ghost all = items@.map_values(|it: WalkItem| it@);
        let mut out: Vec<String> = Vec::new();
        let mut i: usize = 0;
        while i < items.len()
            invariant
                i <= items@.len(),
                all == items@.map_values(|it: WalkItem| it@),
                out@.map_values(|p: String| p@) == reported_paths(self@, all.subrange(0, i as int)),
            decreases items@.len() - i,
        {
            let ghost before = out@;
            assert(all.subrange(0, i + 1).drop_last() =~= all.subrange(0, i as int));
            match self.handle(&items[i]) {
                Emit::Path(p) => {
                    out.push(p);
                    assert(out@.map_values(|p: String| p@) =~= before.map_values(|p: String| p@).push(all[i as int]->Found_0.path));
                },
                _ => {},
            }
            i = i + 1;
        }
        assert(all.subrange(0, i as int) =~= all);
        out
    }
}

} // verus!
