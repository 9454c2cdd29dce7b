//! The entry filter: which directories the walk does not descend into.

use vstd::prelude::*;

verus! {

/// `w` stands in `s` starting at position `i`.
pub open spec fn occurs_at(s: Seq<char>, w: Seq<char>, i: int) -> bool {
    0 <= i && i + w.len() <= s.len() && s.subrange(i, i + w.len()) == w
}

/// `w` stands somewhere in `s` as a contiguous run of characters.
pub open spec fn has_substring(s: Seq<char>, w: Seq<char>) -> bool {
    exists|i: int| occurs_at(s, w, i)
}

/// A hidden name starts with a dot.
pub open spec fn hidden_name(name: Seq<char>) -> bool {
    name.len() > 0 && name[0] == '.'
}

/// A name that contains one of the built-in dependency or VCS markers.
pub open spec fn library_name(name: Seq<char>) -> bool {
    has_substring(name, ".git"@) || has_substring(name, "node_modules"@) || has_substring(name, "venv"@)
}

/// An entry below the root with such a name is skipped together with its subtree.
pub open spec fn prune_name(name: Seq<char>) -> bool {
    hidden_name(name) || library_name(name)
}

/// The characters of `s`, one by one.
pub fn chars_of(s: &str) -> (r: Vec<char>)
    ensures
        r@ == s@,
{
    let n = s.unicode_len();
    let mut r: Vec<char> = Vec::new();
    let mut i: usize = 0;
    while i < n
        invariant
            n == s@.len(),
            i <= n,
            r@ == s@.subrange(0, i as int),
        decreases n - i,
    {
        r.push(s.get_char(i));
        i = i + 1;
        assert(r@ =~= s@.subrange(0, i as int));
    }
    assert(r@ =~= s@);
    r
}

/// Whether `w` stands in `s` at position `i`.
fn chars_at(s: &Vec<char>, w: &Vec<char>, i: usize) -> (r: bool)
    requires
        i + w@.len() <= s@.len(),
    ensures
        r == occurs_at(s@, w@, i as int),
{
    let sl = s.len();
    let mut j: usize = 0;
    while j < w.len()
        invariant
            sl == s@.len(),
            i + w@.len() <= s@.len(),
            j <= w@.len(),
            forall|k: int| 0 <= k < j ==> s@[i + k] == w@[k],
        decreases w@.len() - j,
    {
        if s[i + j] != w[j] {
            assert(s@.subrange(i as int, i + w@.len())[j as int] != w@[j as int]);
            return false;
        }
        j = j + 1;
    }
    assert(s@.subrange(i as int, i + w@.len()) =~= w@);
    true
}

/// Whether `w` stands somewhere in `s`.
pub fn contains_chars(s: &Vec<char>, w: &Vec<char>) -> (r: bool)
    ensures
        r == has_substring(s@, w@),
{
    if w.len() > s.len() {
        return false;
    }
    let last = s.len() - w.len();
    let mut i: usize = 0;
    loop
        invariant
            last == s@.len() - w@.len(),
            w@.len() <= s@.len(),
            i <= last,
            forall|k: int| 0 <= k < i ==> !occurs_at(s@, w@, k),
        decreases last - i,
    {
        if chars_at(s, w, i) {
            return true;
        }
        if i == last {
            assert forall|k: int| !occurs_at(s@, w@, k) by {
                if occurs_at(s@, w@, k) {
                    assert(k < i);
                }
            }
            return false;
        }
        i = i + 1;
    }
}

/// Whether the name starts with a dot.
pub fn is_hidden(name: &str) -> (r: bool)
    ensures
        r == hidden_name(name@),
{
    name.unicode_len() > 0 && name.get_char(0) == '.'
}

/// Whether the name contains `.git`, `node_modules` or `venv` anywhere.
pub fn is_library(name: &str) -> (r: bool)
    ensures
        r == library_name(name@),
{
    let n = chars_of(name);
    contains_chars(&n, &chars_of(".git")) || contains_chars(&n, &chars_of("node_modules"))
        || contains_chars(&n, &chars_of("venv"))
}

/// The pruning rule: a directory with this base name is not descended into.
pub fn should_prune(name: &str) -> (r: bool)
    ensures
        r == prune_name(name@),
{
    is_hidden(name) || is_library(name)
}

/// Whether the walk keeps an entry: the root always, any other entry when
/// its name is not pruned.
pub fn visit_entry(name: &str, is_root: bool) -> (r: bool)
    ensures
        r == (is_root || !prune_name(name@)),
{
    is_root || !should_prune(name)
}

} // verus!
