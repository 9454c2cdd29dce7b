//! Properties of the output of a run, over any sequence of walk results.

use vstd::prelude::*;
use crate::filter::{hidden_name, library_name};
use crate::pattern::regex_finds;
use crate::walk::{item_reports, reported, reported_paths, EntryView, SettingsView, WalkItemView};

verus! {

/// A path is printed exactly when some entry among the walk results is
/// reported with that path.
pub proof fn lemma_printed_iff_reported_entry(s: SettingsView, items: Seq<WalkItemView>, p: Seq<char>)
    ensures
        reported_paths(s, items).contains(p) <==> exists|i: int|
            0 <= i < items.len() && item_reports(s, #[trigger] items[i], p),
    decreases items.len(),
{
    if items.len() > 0 {
        let init = items.drop_last();
        let last = items.len() - 1;
        lemma_printed_iff_reported_entry(s, init, p);
        if reported_paths(s, items).contains(p) {
            if !reported_paths(s, init).contains(p) {
                let k = choose|k: int| 0 <= k < reported_paths(s, items).len()
                    && reported_paths(s, items)[k] == p;
                assert(item_reports(s, items[last], p));
            } else {
                let i = choose|i: int| 0 <= i < init.len() && item_reports(s, #[trigger] init[i], p);
                assert(items[i] == init[i]);
            }
        }
        if exists|i: int| 0 <= i < items.len() && item_reports(s, #[trigger] items[i], p) {
            let i = choose|i: int| 0 <= i < items.len() && item_reports(s, #[trigger] items[i], p);
            if i == last {
                let e = items[last]->Found_0;
                assert(reported_paths(s, items) == reported_paths(s, init).push(e.path));
                assert(reported_paths(s, items)[reported_paths(s, init).len() as int] == p);
            } else {
                assert(init[i] == items[i]);
                let k = choose|k: int| 0 <= k < reported_paths(s, init).len()
                    && reported_paths(s, init)[k] == p;
                match items[last] {
                    WalkItemView::Found(e) => if reported(s, e) {
                        assert(reported_paths(s, items)[k] == p);
                    },
                    WalkItemView::Failed(_) => {},
                }
            }
        }
    }
}

/// Every printed path belongs to a reported entry among the walk results.
proof fn lemma_source_entry(s: SettingsView, items: Seq<WalkItemView>, p: Seq<char>) -> (e: EntryView)
    requires
        reported_paths(s, items).contains(p),
    ensures
        items.contains(WalkItemView::Found(e)),
        reported(s, e),
        e.path == p,
{
    lemma_printed_iff_reported_entry(s, items, p);
    let i = choose|i: int| 0 <= i < items.len() && item_reports(s, #[trigger] items[i], p);
    items[i]->Found_0
}

/// Nothing hidden is printed: a printed path belongs to the root, or to an
/// entry whose name and whose directories below the root all do not start
/// with a dot.
pub proof fn lemma_hidden_never_printed(s: SettingsView, items: Seq<WalkItemView>, p: Seq<char>)
    requires
        reported_paths(s, items).contains(p),
    ensures
        exists|e: EntryView|
            #[trigger] items.contains(WalkItemView::Found(e)) && e.path == p && (e.is_root || (
            !hidden_name(e.name) && forall|j: int|
                0 <= j < e.ancestors.len() ==> !hidden_name(#[trigger] e.ancestors[j]))),
{
    let e = lemma_source_entry(s, items, p);
    assert(items.contains(WalkItemView::Found(e)));
}

/// Nothing inside a dependency directory is printed: a printed path belongs
/// to the root, or to an entry whose name and whose directories below the
/// root contain none of `.git`, `node_modules`, `venv`.
pub proof fn lemma_library_never_printed(s: SettingsView, items: Seq<WalkItemView>, p: Seq<char>)
    requires
        reported_paths(s, items).contains(p),
    ensures
        exists|e: EntryView|
            #[trigger] items.contains(WalkItemView::Found(e)) && e.path == p && (e.is_root || (
            !library_name(e.name) && forall|j: int|
                0 <= j < e.ancestors.len() ==> !library_name(#[trigger] e.ancestors[j]))),
{
    let e = lemma_source_entry(s, items, p);
    assert(items.contains(WalkItemView::Found(e)));
}

/// Every printed path belongs to an entry whose base name the search
/// pattern matches.
pub proof fn lemma_printed_matches_pattern(s: SettingsView, items: Seq<WalkItemView>, p: Seq<char>)
    requires
        reported_paths(s, items).contains(p),
    ensures
        exists|e: EntryView|
            #[trigger] items.contains(WalkItemView::Found(e)) && e.path == p && regex_finds(
                s.pattern,
                e.name,
            ),
{
    let e = lemma_source_entry(s, items, p);
    assert(items.contains(WalkItemView::Found(e)));
}

/// When an exclusion pattern is set, it matches no printed path.
pub proof fn lemma_printed_not_excluded(s: SettingsView, items: Seq<WalkItemView>, p: Seq<char>)
    requires
        reported_paths(s, items).contains(p),
    ensures
        s.exclusion matches Some(x) ==> !regex_finds(x, p),
{
    let e = lemma_source_entry(s, items, p);
}

/// The set of printed paths depends on the set of walk results only, not on
/// the order in which they arrive: two walks of the same tree print the
/// same paths.
pub proof fn lemma_printed_set_order_free(s: SettingsView, a: Seq<WalkItemView>, b: Seq<WalkItemView>)
    requires
        a.to_set() == b.to_set(),
    ensures
        reported_paths(s, a).to_set() == reported_paths(s, b).to_set(),
{
    assert forall|p: Seq<char>| reported_paths(s, a).to_set().contains(p) implies reported_paths(
        s,
        b,
    ).to_set().contains(p) by {
        lemma_printed_iff_reported_entry(s, a, p);
        lemma_printed_iff_reported_entry(s, b, p);
        let i = choose|i: int| 0 <= i < a.len() && item_reports(s, #[trigger] a[i], p);
        assert(a.to_set().contains(a[i]));
        assert(b.contains(a[i]));
    }
    assert forall|p: Seq<char>| reported_paths(s, b).to_set().contains(p) implies reported_paths(
        s,
        a,
    ).to_set().contains(p) by {
        lemma_printed_iff_reported_entry(s, a, p);
        lemma_printed_iff_reported_entry(s, b, p);
        let i = choose|i: int| 0 <= i < b.len() && item_reports(s, #[trigger] b[i], p);
        assert(b.to_set().contains(b[i]));
        assert(a.contains(b[i]));
    }
    assert(reported_paths(s, a).to_set() =~= reported_paths(s, b).to_set());
}

} // verus!
