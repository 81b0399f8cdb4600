//! Filtering the list of installed packages by what the user typed.

use crate::state::RemoveModeState;
use crate::text::{contains_chars, has_sub, to_chars};
use crate::types::{installed_views, InstalledView};
use vstd::prelude::*;

verus! {

/// The text that `str::to_lowercase` gives for a text.
pub uninterp spec fn lowercase_of(s: Seq<char>) -> Seq<char>;

/// `str::to_lowercase`: the text with every character in its Unicode lower
/// case. The result is a function of the text alone.
#[verifier::external_body]
fn to_lower(s: &str) -> (r: String)
    ensures
        r@ == lowercase_of(s@),
{
    s.to_lowercase()
}

/// Whether a package whose name and description are given in lower case
/// answers to a keyword in lower case: one of the two contains it.
pub open spec fn lowered_matches(name: Seq<char>, description: Seq<char>, keyword: Seq<char>) -> bool {
    has_sub(name, keyword) || has_sub(description, keyword)
}

/// Whether a package passes the filter for a keyword in lower case: every
/// package passes the empty keyword.
pub open spec fn passes(p: InstalledView, keyword: Seq<char>) -> bool {
    keyword.len() == 0 || lowered_matches(
        lowercase_of(p.name),
        lowercase_of(p.description),
        keyword,
    )
}

/// The indexes of the packages that pass, in ascending order.
pub open spec fn filter_indices(pkgs: Seq<InstalledView>, keyword: Seq<char>) -> Seq<usize>
    decreases pkgs.len(),
{
    if pkgs.len() == 0 {
        Seq::empty()
    } else if passes(pkgs.last(), keyword) {
        filter_indices(pkgs.drop_last(), keyword).push((pkgs.len() - 1) as usize)
    } else {
        filter_indices(pkgs.drop_last(), keyword)
    }
}

/// The marks that still point at a package of the filtered list, in their
/// old order.
pub open spec fn kept_marks(marked: Seq<usize>, filtered: Seq<usize>) -> Seq<usize>
    decreases marked.len(),
{
    if marked.len() == 0 {
        Seq::empty()
    } else if filtered.contains(marked.last()) {
        kept_marks(marked.drop_last(), filtered).push(marked.last())
    } else {
        kept_marks(marked.drop_last(), filtered)
    }
}

/// Whether a package answers to a keyword, all three given in lower case.
pub fn package_matches(name_lower: &str, description_lower: &str, keyword_lower: &str) -> (r: bool)
    ensures
        r == lowered_matches(name_lower@, description_lower@, keyword_lower@),
{
    let n = to_chars(name_lower);
    let d = to_chars(description_lower);
    let k = to_chars(keyword_lower);
    contains_chars(n.as_slice(), k.as_slice()) || contains_chars(d.as_slice(), k.as_slice())
}

/// Index of the first `x` at or after `from`, or `s.len()`.
pub open spec fn position(s: Seq<usize>, x: usize, from: int) -> int
    decreases s.len() - from,
{
    if from < 0 || from >= s.len() {
        s.len() as int
    } else if s[from] == x {
        from
    } else {
        position(s, x, from + 1)
    }
}

/// The marks after the mark of `x` was flipped: taken away when it was
/// there, added at the end when it was not.
pub open spec fn toggled(marked: Seq<usize>, x: usize) -> Seq<usize> {
    let p = position(marked, x, 0);
    if p < marked.len() {
        marked.remove(p)
    } else {
        marked.push(x)
    }
}

/// Flips the mark of `x`.
pub fn toggle_mark(marked: &mut Vec<usize>, x: usize)
    ensures
        final(marked)@ == toggled(old(marked)@, x),
{
    let mut i: usize = 0;
    while i < marked.len()
        invariant
            i <= marked.len(),
            *marked == *old(marked),
            position(marked@, x, 0) == position(marked@, x, i as int),
        decreases marked.len() - i,
    {
        if marked[i] == x {
            marked.remove(i);
            return;
        }
        i += 1;
    }
    marked.push(x);
}

/// Whether `v` holds `x`.
pub fn holds(v: &Vec<usize>, x: usize) -> (r: bool)
    ensures
        r == v@.contains(x),
{
    let mut i: usize = 0;
    while i < v.len()
        invariant
            i <= v.len(),
            forall|k: int| 0 <= k < i ==> v@[k] != x,
        decreases v.len() - i,
    {
        if v[i] == x {
            return true;
        }
        i += 1;
    }
    false
}

impl RemoveModeState {
    /// Applies the typed text as filter to the list of packages: a package
    /// passes when its name or its description contains the text, letter
    /// case aside; everything passes the empty text. The highlight returns
    /// to the top and marks of packages that no longer pass are dropped.
    pub fn apply_filter(&mut self)
        ensures
            final(self).filtered@ == filter_indices(
                installed_views(old(self).packages@),
                lowercase_of(old(self).input@),
            ),
            final(self).marked@ == kept_marks(old(self).marked@, final(self).filtered@),
            *final(self) == (RemoveModeState {
                filtered: final(self).filtered,
                selected: 0,
                marked: final(self).marked,
                ..*old(self)
            }),
    {
        let keyword = to_lower(self.input.as_str());
        let empty = keyword.as_str().unicode_len() == 0;
        let mut filtered: Vec<usize> = Vec::new();
        let mut i: usize = 0;
        let ghost pkgs = installed_views(self.packages@);
        assert(pkgs.take(0) =~= Seq::<InstalledView>::empty());
        while i < self.packages.len()
            invariant
                i <= self.packages.len(),
                pkgs == installed_views(self.packages@),
                empty == (keyword@.len() == 0),
                filtered@ == filter_indices(pkgs.take(i as int), keyword@),
            decreases self.packages.len() - i,
        {
            proof {
                let next = pkgs.take(i + 1);
                assert(next.drop_last() =~= pkgs.take(i as int));
                assert(next.last() == self.packages@[i as int]@);
            }
            let pass = if empty {
                true
            } else {
                let n = to_lower(self.packages[i].name.as_str());
                let d = to_lower(self.packages[i].description.as_str());
                package_matches(n.as_str(), d.as_str(), keyword.as_str())
            };
            if pass {
                filtered.push(i);
            }
            i += 1;
        }
        assert(pkgs.take(self.packages.len() as int) =~= pkgs);
        let mut marked: Vec<usize> = Vec::new();
        let mut k: usize = 0;
        assert(self.marked@.take(0) =~= Seq::<usize>::empty());
        while k < self.marked.len()
            invariant
                k <= self.marked.len(),
                marked@ == kept_marks(self.marked@.take(k as int), filtered@),
            decreases self.marked.len() - k,
        {
            proof {
                let next = self.marked@.take(k + 1);
                assert(next.drop_last() =~= self.marked@.take(k as int));
                assert(next.last() == self.marked@[k as int]);
            }
            let m = self.marked[k];
            if holds(&filtered, m) {
                marked.push(m);
            }
            k += 1;
        }
        assert(self.marked@.take(self.marked.len() as int) =~= self.marked@);
        self.filtered = filtered;
        self.selected = 0;
        self.marked = marked;
    }
}

// ---------------------------------------------------------------------------
// The marks as a set
// ---------------------------------------------------------------------------

/// Whether the indexes are below `n` and ascend.
pub open spec fn ascending_below(v: Seq<usize>, n: nat) -> bool {
    &&& forall|i: int| 0 <= i < v.len() ==> #[trigger] v[i] < n
    &&& forall|i: int, j: int| 0 <= i < j < v.len() ==> #[trigger] v[i] < #[trigger] v[j]
}

/// The filtered list names packages of the list, each once, in the order
/// of the list.
pub proof fn lemma_filter_ascending(pkgs: Seq<InstalledView>, keyword: Seq<char>)
    requires
        pkgs.len() <= usize::MAX,
    ensures
        ascending_below(filter_indices(pkgs, keyword), pkgs.len()),
    decreases pkgs.len(),
{
    if pkgs.len() > 0 {
        lemma_filter_ascending(pkgs.drop_last(), keyword);
        let before = filter_indices(pkgs.drop_last(), keyword);
        let all = filter_indices(pkgs, keyword);
        assert forall|i: int| 0 <= i < all.len() implies #[trigger] all[i] < pkgs.len() by {
            if i < before.len() {
                assert(before[i] < pkgs.len() - 1);
            }
        }
        assert forall|i: int, j: int| 0 <= i < j < all.len() implies #[trigger] all[i]
            < #[trigger] all[j] by {
            if j < before.len() {
                assert(before[i] < before[j]);
            } else {
                assert(before[i] < pkgs.len() - 1);
            }
        }
    }
}

pub proof fn lemma_position(s: Seq<usize>, x: usize, from: int)
    requires
        0 <= from <= s.len(),
    ensures
        from <= position(s, x, from) <= s.len(),
        position(s, x, from) < s.len() ==> s[position(s, x, from)] == x,
        forall|k: int| from <= k < position(s, x, from) ==> s[k] != x,
    decreases s.len() - from,
{
    if from < s.len() && s[from] != x {
        lemma_position(s, x, from + 1);
    }
}

/// Flipping a mark is flipping membership in a set: where no index occurs
/// twice, none does afterwards; `x` is marked exactly if it was not; every
/// other mark stays as it was.
pub proof fn lemma_toggle_is_set_flip(marked: Seq<usize>, x: usize)
    requires
        marked.no_duplicates(),
    ensures
        toggled(marked, x).no_duplicates(),
        toggled(marked, x).contains(x) <==> !marked.contains(x),
        forall|y: usize| y != x ==> (toggled(marked, x).contains(y) <==> marked.contains(y)),
{
    lemma_position(marked, x, 0);
    let p = position(marked, x, 0);
    let t = toggled(marked, x);
    if p < marked.len() {
        assert(marked.contains(x));
        assert forall|i: int, j: int| 0 <= i < t.len() && 0 <= j < t.len() && i != j implies t[i]
            != t[j] by {
            let a = if i < p {
                i
            } else {
                i + 1
            };
            let b = if j < p {
                j
            } else {
                j + 1
            };
            assert(t[i] == marked[a] && t[j] == marked[b] && a != b);
        }
        assert forall|i: int| 0 <= i < t.len() implies t[i] != x by {
            let a = if i < p {
                i
            } else {
                i + 1
            };
            assert(t[i] == marked[a] && a != p);
        }
        assert forall|y: usize| y != x implies (t.contains(y) <==> marked.contains(y)) by {
            if t.contains(y) {
                let i = choose|i: int| 0 <= i < t.len() && t[i] == y;
                let a = if i < p {
                    i
                } else {
                    i + 1
                };
                assert(marked[a] == y);
            }
            if marked.contains(y) {
                let a = choose|a: int| 0 <= a < marked.len() && marked[a] == y;
                let i = if a < p {
                    a
                } else {
                    a - 1
                };
                assert(t[i] == y);
            }
        }
    } else {
        assert(!marked.contains(x));
        assert(t[t.len() - 1] == x);
        assert forall|y: usize| y != x implies (t.contains(y) <==> marked.contains(y)) by {
            if t.contains(y) {
                let i = choose|i: int| 0 <= i < t.len() && t[i] == y;
                assert(marked[i] == y);
            }
            if marked.contains(y) {
                let a = choose|a: int| 0 <= a < marked.len() && marked[a] == y;
                assert(t[a] == y);
            }
        }
    }
}

/// The marks that survive a filter are those that were marked and pass it;
/// where no index occurred twice, none does afterwards.
pub proof fn lemma_kept_marks_is_intersection(marked: Seq<usize>, filtered: Seq<usize>)
    ensures
        forall|y: usize|
            #![trigger kept_marks(marked, filtered).contains(y)]
            #![trigger marked.contains(y)]
            kept_marks(marked, filtered).contains(y) <==> marked.contains(y) && filtered.contains(
                y,
            ),
        marked.no_duplicates() ==> kept_marks(marked, filtered).no_duplicates(),
    decreases marked.len(),
{
    let k = kept_marks(marked, filtered);
    if marked.len() == 0 {
        assert forall|y: usize| !k.contains(y) && !marked.contains(y) by {}
    } else {
        let rest = marked.drop_last();
        let last = marked.last();
        let kr = kept_marks(rest, filtered);
        lemma_kept_marks_is_intersection(rest, filtered);
        assert forall|y: usize| k.contains(y) <==> marked.contains(y) && filtered.contains(y) by {
            if k.contains(y) {
                let i = choose|i: int| 0 <= i < k.len() && k[i] == y;
                if i < kr.len() {
                    assert(kr[i] == y);
                    assert(kr.contains(y));
                    assert(rest.contains(y));
                    let a = choose|a: int| 0 <= a < rest.len() && rest[a] == y;
                    assert(marked[a] == y);
                } else {
                    assert(y == last);
                    assert(marked[marked.len() - 1] == y);
                }
            }
            if marked.contains(y) && filtered.contains(y) {
                let a = choose|a: int| 0 <= a < marked.len() && marked[a] == y;
                if a < rest.len() {
                    assert(rest[a] == y);
                    assert(rest.contains(y));
                    assert(kr.contains(y));
                    let i = choose|i: int| 0 <= i < kr.len() && kr[i] == y;
                    assert(k[i] == y);
                } else {
                    assert(k[k.len() - 1] == y);
                }
            }
        }
        if marked.no_duplicates() {
            assert(rest.no_duplicates());
            if filtered.contains(last) {
                if kr.contains(last) {
                    let a = choose|a: int| 0 <= a < rest.len() && rest[a] == last;
                    assert(marked[a] == marked[marked.len() - 1]);
                }
                assert forall|i: int, j: int|
                    0 <= i < k.len() && 0 <= j < k.len() && i != j implies k[i] != k[j] by {
                    if i < kr.len() && j < kr.len() {
                        assert(kr[i] != kr[j]);
                    } else if i < kr.len() {
                        assert(kr[i] == k[i]);
                        assert(kr.contains(k[i]));
                    } else {
                        assert(kr[j] == k[j]);
                        assert(kr.contains(k[j]));
                    }
                }
            }
        }
    }
}

} // verus!
