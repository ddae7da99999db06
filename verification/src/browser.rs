//! The file picker of the credentials setup wizard: which entries of a
//! directory it lists, in what order, and how each row reads.

use vstd::prelude::*;
use vstd::relations::{sorted_by, total_ordering};
use vstd::seq_lib::{lemma_sorted_unique, to_multiset_build, to_multiset_insert};

use crate::order::{lemma_text_order_is_total, text_le, text_le_exec, text_order};

verus! {

/// A directory entry: whether it is a directory, and its name.
#[derive(Debug, PartialEq, Eq)]
pub struct BrowserEntry {
    pub is_dir: bool,
    pub name: String,
}

impl View for BrowserEntry {
    type V = (bool, Seq<char>);

    open spec fn view(&self) -> (bool, Seq<char>) {
        (self.is_dir, self.name@)
    }
}

/// The entries as views.
pub open spec fn entry_views(entries: Seq<BrowserEntry>) -> Seq<(bool, Seq<char>)> {
    entries.map_values(|e: BrowserEntry| e@)
}

/// The picker's order: directories first, then by name.
pub open spec fn entry_le(a: (bool, Seq<char>), b: (bool, Seq<char>)) -> bool {
    if a.0 != b.0 {
        a.0
    } else {
        text_le(a.1, b.1)
    }
}

/// The picker's order as a relation.
pub open spec fn entry_order() -> spec_fn((bool, Seq<char>), (bool, Seq<char>)) -> bool {
    |a: (bool, Seq<char>), b: (bool, Seq<char>)| entry_le(a, b)
}

/// The picker's order is a total order.
pub proof fn lemma_entry_order_is_total()
    ensures
        total_ordering(entry_order()),
{
    lemma_text_order_is_total();
    assert forall|a: (bool, Seq<char>)| #[trigger] entry_order()(a, a) by {
        assert(text_order()(a.1, a.1));
    }
    assert forall|a: (bool, Seq<char>), b: (bool, Seq<char>)|
        #[trigger] entry_order()(a, b) && #[trigger] entry_order()(b, a) implies a == b by {
        assert(text_order()(a.1, b.1) && text_order()(b.1, a.1));
    }
    assert forall|a: (bool, Seq<char>), b: (bool, Seq<char>), c: (bool, Seq<char>)|
        #[trigger] entry_order()(a, b) && #[trigger] entry_order()(b, c) implies entry_order()(
        a,
        c,
    ) by {
        if a.0 == b.0 && b.0 == c.0 {
            assert(text_order()(a.1, b.1) && text_order()(b.1, c.1));
        }
    }
    assert forall|a: (bool, Seq<char>), b: (bool, Seq<char>)|
        #[trigger] entry_order()(a, b) || #[trigger] entry_order()(b, a) by {
        assert(text_order()(a.1, b.1) || text_order()(b.1, a.1));
    }
}

/// Whether an entry is listed: hidden ones (a name starting with `.`)
/// are not.
pub open spec fn is_visible(entry: (bool, Seq<char>)) -> bool {
    !(entry.1.len() > 0 && entry.1[0] == '.')
}

/// The listed entries, in the directory's order.
pub open spec fn visible_entries(entries: Seq<(bool, Seq<char>)>) -> Seq<(bool, Seq<char>)>
    decreases entries.len(),
{
    if entries.len() == 0 {
        seq![]
    } else {
        let rest = visible_entries(entries.drop_last());
        if is_visible(entries.last()) {
            rest.push(entries.last())
        } else {
            rest
        }
    }
}

/// The picker's rows for a directory's entries: the visible ones,
/// directories first, each group by name.
pub open spec fn spec_browser_listing(entries: Seq<(bool, Seq<char>)>) -> Seq<(bool, Seq<char>)> {
    visible_entries(entries).sort_by(entry_order())
}

fn entry_le_exec(a: &BrowserEntry, b: &BrowserEntry) -> (r: bool)
    ensures
        r == entry_le(a@, b@),
{
    if a.is_dir != b.is_dir {
        a.is_dir
    } else {
        text_le_exec(a.name.as_str(), b.name.as_str())
    }
}

fn sort_entries(entries: Vec<BrowserEntry>) -> (r: Vec<BrowserEntry>)
    ensures
        entry_views(r@) == entry_views(entries@).sort_by(entry_order()),
{
    let ghost input = entry_views(entries@);
    let mut entries = entries;
    let mut sorted: Vec<BrowserEntry> = Vec::new();
    let ghost mut taken: Seq<(bool, Seq<char>)> = Seq::empty();
    proof {
        lemma_entry_order_is_total();
        assert(entry_views(sorted@) =~= Seq::<(bool, Seq<char>)>::empty());
        assert(input =~= entry_views(entries@) + taken.reverse());
    }
    let mut i: usize = 0;
    let n: usize = entries.len();
    while entries.len() > 0
        invariant
            i + entries@.len() == n,
            n == input.len(),
            input == entry_views(entries@) + taken.reverse(),
            taken.len() == i,
            total_ordering(entry_order()),
            sorted_by(entry_views(sorted@), entry_order()),
            entry_views(sorted@).to_multiset() == taken.to_multiset(),
        decreases entries.len(),
    {
        let ghost rest_before = entry_views(entries@);
        let x = entries.pop().unwrap();
        proof {
            assert(rest_before =~= entry_views(entries@).push(x@));
        }
        let ghost before = entry_views(sorted@);
        let mut p: usize = 0;
        while p < sorted.len() && entry_le_exec(&sorted[p], &x)
            invariant
                p <= sorted@.len(),
                before == entry_views(sorted@),
                forall|j: int| 0 <= j < p ==> entry_le(#[trigger] before[j], x@),
            decreases sorted.len() - p,
        {
            p = p + 1;
        }
        let ghost xv = x@;
        sorted.insert(p, x);
        proof {
            let after = entry_views(sorted@);
            assert(after =~= before.insert(p as int, xv));
            if p < before.len() {
                assert(!entry_order()(before[p as int], xv));
                assert(entry_order()(before[p as int], xv) || entry_order()(xv, before[p as int]));
            }
            assert forall|b: int| p < b < after.len() implies entry_le(xv, #[trigger] after[b]) by {
                assert(after[b] == before[b - 1]);
                if b - 1 > p {
                    assert(entry_order()(before[p as int], before[b - 1]));
                    assert(entry_order()(xv, before[p as int]));
                }
            }
            assert forall|a: int, b: int| 0 <= a < b < after.len() implies #[trigger] entry_order()(
                after[a],
                after[b],
            ) by {
                if b < p {
                    assert(entry_order()(before[a], before[b]));
                } else if a < p && b == p {
                } else if a < p && b > p {
                    assert(entry_order()(after[a], xv));
                    assert(entry_order()(xv, after[b]));
                } else if a == p {
                } else {
                    assert(entry_order()(before[a - 1], before[b - 1]));
                }
            }
            to_multiset_insert(before, p as int, xv);
            to_multiset_build(taken, xv);
            assert(taken.push(xv).reverse() =~= seq![xv] + taken.reverse());
            taken = taken.push(xv);
            assert(input =~= entry_views(entries@) + taken.reverse());
        }
        i = i + 1;
    }
    proof {
        assert(input =~= taken.reverse());
        taken.lemma_reverse_to_multiset();
        input.lemma_sort_by_ensures(entry_order());
        lemma_sorted_unique(entry_views(sorted@), input.sort_by(entry_order()), entry_order());
    }
    sorted
}

/// The picker's rows for a directory's entries: the visible ones,
/// directories first, each group by name.
pub fn browser_listing(entries: Vec<BrowserEntry>) -> (r: Vec<BrowserEntry>)
    ensures
        entry_views(r@) == spec_browser_listing(entry_views(entries@)),
{
    let ghost all = entry_views(entries@);
    let mut visible: Vec<BrowserEntry> = Vec::new();
    let mut entries = entries;
    let mut rest: Vec<BrowserEntry> = Vec::new();
    // Reverse into `rest`, so that popping from it visits the directory's
    // order front to back.
    while entries.len() > 0
        invariant
            all =~= entry_views(entries@) + entry_views(rest@).reverse(),
        decreases entries.len(),
    {
        let ghost before = entry_views(entries@);
        let e = entries.pop().unwrap();
        proof {
            assert(before =~= entry_views(entries@).push(e@));
        }
        let ghost old_rest = entry_views(rest@);
        rest.push(e);
        proof {
            assert(entry_views(rest@) =~= old_rest.push(before.last()));
            assert(entry_views(rest@).reverse() =~= seq![before.last()] + old_rest.reverse());
        }
    }
    let ghost mut seen: Seq<(bool, Seq<char>)> = Seq::empty();
    assert(entry_views(visible@) =~= visible_entries(seen));
    while rest.len() > 0
        invariant
            all =~= seen + entry_views(rest@).reverse(),
            entry_views(visible@) == visible_entries(seen),
        decreases rest.len(),
    {
        let ghost before = entry_views(rest@);
        let e = rest.pop().unwrap();
        proof {
            assert(before =~= entry_views(rest@).push(e@));
            assert(before.reverse() =~= seq![e@] + entry_views(rest@).reverse());
            assert(seen.push(e@).drop_last() =~= seen);
        }
        let ghost ev = e@;
        let hidden = e.name.as_str().unicode_len() > 0 && e.name.as_str().get_char(0) == '.';
        if !hidden {
            visible.push(e);
            proof {
                assert(entry_views(visible@) =~= visible_entries(seen).push(ev));
            }
        }
        proof {
            seen = seen.push(ev);
        }
    }
    sort_entries(visible)
}

/// A row's text: a folder or document symbol, then the entry's name.
pub open spec fn spec_browser_row_label(is_dir: bool, name: Seq<char>) -> Seq<char> {
    (if is_dir {
        "\u{1f4c1} "@
    } else {
        "\u{1f4c4} "@
    }) + name
}

/// A row's text.
pub fn browser_row_label(entry: &BrowserEntry) -> (r: String)
    ensures
        r@ == spec_browser_row_label(entry.is_dir, entry.name@),
{
    let icon = if entry.is_dir {
        "\u{1f4c1} "
    } else {
        "\u{1f4c4} "
    };
    String::from_str(icon).concat(entry.name.as_str())
}

} // verus!
