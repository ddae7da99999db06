//! The order of texts that `String`'s comparison follows (character by
//! character, by code point, a prefix first), and sorting by it.

use vstd::prelude::*;
use vstd::relations::{sorted_by, total_ordering};
use vstd::seq_lib::{lemma_sorted_unique, to_multiset_build, to_multiset_insert};

use crate::text::string_texts;

verus! {

/// Whether `a` comes no later than `b`: compared character by character
/// by code point, a proper prefix coming first.
pub open spec fn text_le(a: Seq<char>, b: Seq<char>) -> bool
    decreases a.len(),
{
    if a.len() == 0 {
        true
    } else if b.len() == 0 {
        false
    } else if a[0] != b[0] {
        (a[0] as int) < (b[0] as int)
    } else {
        text_le(a.drop_first(), b.drop_first())
    }
}

/// The order as a relation.
pub open spec fn text_order() -> spec_fn(Seq<char>, Seq<char>) -> bool {
    |a: Seq<char>, b: Seq<char>| text_le(a, b)
}

proof fn lemma_text_le_reflexive(a: Seq<char>)
    ensures
        text_le(a, a),
    decreases a.len(),
{
    if a.len() > 0 {
        lemma_text_le_reflexive(a.drop_first());
    }
}

proof fn lemma_text_le_antisymmetric(a: Seq<char>, b: Seq<char>)
    requires
        text_le(a, b),
        text_le(b, a),
    ensures
        a == b,
    decreases a.len(),
{
    if a.len() > 0 && b.len() > 0 {
        lemma_text_le_antisymmetric(a.drop_first(), b.drop_first());
        assert(a =~= seq![a[0]] + a.drop_first());
        assert(b =~= seq![b[0]] + b.drop_first());
    }
    assert(a =~= b);
}

proof fn lemma_text_le_transitive(a: Seq<char>, b: Seq<char>, c: Seq<char>)
    requires
        text_le(a, b),
        text_le(b, c),
    ensures
        text_le(a, c),
    decreases a.len(),
{
    if a.len() > 0 && b.len() > 0 && c.len() > 0 && a[0] == b[0] && b[0] == c[0] {
        lemma_text_le_transitive(a.drop_first(), b.drop_first(), c.drop_first());
    }
}

proof fn lemma_text_le_total(a: Seq<char>, b: Seq<char>)
    ensures
        text_le(a, b) || text_le(b, a),
    decreases a.len(),
{
    if a.len() > 0 && b.len() > 0 {
        if a[0] == b[0] {
            lemma_text_le_total(a.drop_first(), b.drop_first());
        } else {
            assert((a[0] as int) != (b[0] as int));
        }
    }
}

/// The order is a total order: reflexive, antisymmetric, transitive, and
/// any two texts are comparable.
pub proof fn lemma_text_order_is_total()
    ensures
        total_ordering(text_order()),
{
    assert forall|a: Seq<char>| #[trigger] text_order()(a, a) by {
        lemma_text_le_reflexive(a);
    }
    assert forall|a: Seq<char>, b: Seq<char>|
        #[trigger] text_order()(a, b) && #[trigger] text_order()(b, a) implies a == b by {
        lemma_text_le_antisymmetric(a, b);
    }
    assert forall|a: Seq<char>, b: Seq<char>, c: Seq<char>|
        #[trigger] text_order()(a, b) && #[trigger] text_order()(b, c) implies text_order()(
        a,
        c,
    ) by {
        lemma_text_le_transitive(a, b, c);
    }
    assert forall|a: Seq<char>, b: Seq<char>|
        #[trigger] text_order()(a, b) || #[trigger] text_order()(b, a) by {
        lemma_text_le_total(a, b);
    }
}

proof fn lemma_text_le_skip(a: Seq<char>, b: Seq<char>, i: int)
    requires
        0 <= i <= a.len(),
        i <= b.len(),
        forall|j: int| 0 <= j < i ==> a[j] == b[j],
    ensures
        text_le(a, b) == text_le(a.skip(i), b.skip(i)),
    decreases i,
{
    if i > 0 {
        assert forall|j: int| 0 <= j < i - 1 implies a.drop_first()[j] == b.drop_first()[j] by {
            assert(a.drop_first()[j] == a[j + 1]);
            assert(b.drop_first()[j] == b[j + 1]);
        }
        lemma_text_le_skip(a.drop_first(), b.drop_first(), i - 1);
        assert(a.drop_first().skip(i - 1) =~= a.skip(i));
        assert(b.drop_first().skip(i - 1) =~= b.skip(i));
    } else {
        assert(a.skip(0) =~= a);
        assert(b.skip(0) =~= b);
    }
}

/// Whether `a` comes no later than `b`.
pub fn text_le_exec(a: &str, b: &str) -> (r: bool)
    ensures
        r == text_le(a@, b@),
{
    let la: usize = a.unicode_len();
    let lb: usize = b.unicode_len();
    let mut i: usize = 0;
    while i < la && i < lb
        invariant
            i <= la,
            i <= lb,
            la == a@.len(),
            lb == b@.len(),
            forall|j: int| 0 <= j < i ==> a@[j] == b@[j],
        decreases la - i,
    {
        let ca = a.get_char(i);
        let cb = b.get_char(i);
        if ca != cb {
            proof {
                lemma_text_le_skip(a@, b@, i as int);
                assert(a@.skip(i as int)[0] == ca);
                assert(b@.skip(i as int)[0] == cb);
            }
            return (ca as u32) < (cb as u32);
        }
        i = i + 1;
    }
    proof {
        lemma_text_le_skip(a@, b@, i as int);
    }
    i == la
}

/// `strings` sorted into text order.
pub fn sort_texts(strings: Vec<String>) -> (r: Vec<String>)
    ensures
        string_texts(r@) == string_texts(strings@).sort_by(text_order()),
{
    let ghost input = string_texts(strings@);
    let mut sorted: Vec<String> = Vec::new();
    let mut i: usize = 0;
    proof {
        lemma_text_order_is_total();
        assert(input.take(0) =~= Seq::<Seq<char>>::empty());
        assert(string_texts(sorted@) =~= Seq::<Seq<char>>::empty());
    }
    while i < strings.len()
        invariant
            i <= strings@.len(),
            input == string_texts(strings@),
            total_ordering(text_order()),
            sorted_by(string_texts(sorted@), text_order()),
            string_texts(sorted@).to_multiset() == input.take(i as int).to_multiset(),
        decreases strings.len() - i,
    {
        let x = strings[i].clone();
        let ghost before = string_texts(sorted@);
        let mut p: usize = 0;
        while p < sorted.len() && text_le_exec(sorted[p].as_str(), x.as_str())
            invariant
                p <= sorted@.len(),
                before == string_texts(sorted@),
                forall|j: int| 0 <= j < p ==> text_le(#[trigger] before[j], x@),
            decreases sorted.len() - p,
        {
            p = p + 1;
        }
        sorted.insert(p, x);
        proof {
            let after = string_texts(sorted@);
            assert(after =~= before.insert(p as int, x@));
            if p < before.len() {
                assert(!text_le(before[p as int], x@));
                lemma_text_le_total(before[p as int], x@);
            }
            assert forall|b: int| p < b < after.len() implies text_le(x@, #[trigger] after[b]) by {
                assert(after[b] == before[b - 1]);
                if b - 1 > p {
                    assert(text_order()(before[p as int], before[b - 1]));
                    lemma_text_le_transitive(x@, before[p as int], before[b - 1]);
                }
            }
            assert forall|a: int, b: int| 0 <= a < b < after.len() implies #[trigger] text_order()(
                after[a],
                after[b],
            ) by {
                if b < p {
                    assert(text_order()(before[a], before[b]));
                } else if a < p && b == p {
                } else if a < p && b > p {
                    assert(text_le(after[a], x@));
                    assert(text_le(x@, after[b]));
                    lemma_text_le_transitive(after[a], x@, after[b]);
                } else if a == p {
                } else {
                    assert(text_order()(before[a - 1], before[b - 1]));
                }
            }
            to_multiset_insert(before, p as int, x@);
            assert(input.take(i + 1) =~= input.take(i as int).push(input[i as int]));
            to_multiset_build(input.take(i as int), input[i as int]);
        }
        i = i + 1;
    }
    proof {
        assert(input.take(strings@.len() as int) =~= input);
        input.lemma_sort_by_ensures(text_order());
        lemma_sorted_unique(string_texts(sorted@), input.sort_by(text_order()), text_order());
    }
    sorted
}

} // verus!
