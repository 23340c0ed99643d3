//! The order of texts by their characters, as `str` and `OsStr` compare
//! UTF-8 file names, and sorting under it.

use vstd::prelude::*;
use vstd::relations::*;
use vstd::string::*;

verus! {

broadcast use vstd::seq_lib::group_to_multiset_ensures;

/// Lexicographic order of texts by character code: `a` comes no later than `b`.
pub open spec fn text_le(a: Seq<char>, b: Seq<char>) -> bool
    decreases a.len(),
{
    if a.len() == 0 {
        true
    } else if b.len() == 0 {
        false
    } else if a[0] != b[0] {
        (a[0] as u32) < (b[0] as u32)
    } else {
        text_le(a.drop_first(), b.drop_first())
    }
}

/// The order that puts later texts first.
pub open spec fn later_first() -> spec_fn(Seq<char>, Seq<char>) -> bool {
    |a: Seq<char>, b: Seq<char>| text_le(b, a)
}

proof fn lemma_char_code_injective(x: char, y: char)
    requires
        x as u32 == y as u32,
    ensures
        x == y,
{
}

/// Every text comes no later than itself.
pub proof fn lemma_text_le_reflexive(a: Seq<char>)
    ensures
        text_le(a, a),
    decreases a.len(),
{
    if a.len() > 0 {
        lemma_text_le_reflexive(a.drop_first());
    }
}

/// Two texts that each come no later than the other are equal.
pub proof fn lemma_text_le_antisymmetric(a: Seq<char>, b: Seq<char>)
    requires
        text_le(a, b),
        text_le(b, a),
    ensures
        a == b,
    decreases a.len(),
{
    if a.len() == 0 {
        assert(b.len() == 0);
        assert(a =~= b);
    } else {
        assert(b.len() > 0);
        if a[0] != b[0] {
            if (a[0] as u32) == (b[0] as u32) {
                lemma_char_code_injective(a[0], b[0]);
            }
            assert(false);
        } else {
            lemma_text_le_antisymmetric(a.drop_first(), b.drop_first());
            assert(a =~= seq![a[0]] + a.drop_first());
            assert(b =~= seq![b[0]] + b.drop_first());
        }
    }
}

/// The order is transitive.
pub proof fn lemma_text_le_transitive(a: Seq<char>, b: Seq<char>, c: Seq<char>)
    requires
        text_le(a, b),
        text_le(b, c),
    ensures
        text_le(a, c),
    decreases a.len(),
{
    if a.len() > 0 && b.len() > 0 && c.len() > 0 {
        if a[0] == b[0] && b[0] == c[0] {
            lemma_text_le_transitive(a.drop_first(), b.drop_first(), c.drop_first());
        } else if a[0] == c[0] {
            if (a[0] as u32) == (b[0] as u32) {
                lemma_char_code_injective(a[0], b[0]);
            }
            if (b[0] as u32) == (c[0] as u32) {
                lemma_char_code_injective(b[0], c[0]);
            }
        } else {
            if (a[0] as u32) == (c[0] as u32) {
                lemma_char_code_injective(a[0], c[0]);
            }
        }
    }
}

/// Any two texts are ordered one way or the other.
pub proof fn lemma_text_le_total(a: Seq<char>, b: Seq<char>)
    ensures
        text_le(a, b) || text_le(b, a),
    decreases a.len(),
{
    if a.len() > 0 && b.len() > 0 {
        if a[0] == b[0] {
            lemma_text_le_total(a.drop_first(), b.drop_first());
        } else if (a[0] as u32) == (b[0] as u32) {
            lemma_char_code_injective(a[0], b[0]);
        }
    }
}

/// Texts are ordered by the code of the first character in which they
/// differ: where `a` and `b` agree before index `k` and differ at `k`, `a`
/// comes no later than `b` exactly when its character there has the smaller
/// code.
pub proof fn law_texts_are_ordered_by_first_difference(a: Seq<char>, b: Seq<char>, k: int)
    requires
        0 <= k < a.len(),
        k < b.len(),
        forall|i: int| 0 <= i < k ==> a[i] == b[i],
        a[k] != b[k],
    ensures
        text_le(a, b) == ((a[k] as u32) < (b[k] as u32)),
    decreases k,
{
    if k > 0 {
        assert(a[0] == b[0]);
        let a1 = a.drop_first();
        let b1 = b.drop_first();
        assert forall|i: int| 0 <= i < k - 1 implies a1[i] == b1[i] by {
            assert(a[i + 1] == b[i + 1]);
        }
        law_texts_are_ordered_by_first_difference(a1, b1, k - 1);
    }
}

/// A text comes no later than every text it begins, and a text that another
/// one properly begins does not come after it.
pub proof fn law_a_beginning_comes_first(a: Seq<char>, b: Seq<char>)
    requires
        a.is_prefix_of(b),
    ensures
        text_le(a, b),
        a.len() < b.len() ==> !text_le(b, a),
    decreases a.len(),
{
    if a.len() > 0 {
        assert(a[0] == b[0]);
        assert(a.drop_first().is_prefix_of(b.drop_first())) by {
            assert forall|i: int| 0 <= i < a.len() - 1 implies a.drop_first()[i]
                == b.drop_first()[i] by {
                assert(a[i + 1] == b[i + 1]);
            }
        }
        law_a_beginning_comes_first(a.drop_first(), b.drop_first());
    }
}

/// Later-first is a total order, so sorting by it is well defined.
pub proof fn lemma_later_first_total()
    ensures
        total_ordering(later_first()),
{
    let leq = later_first();
    assert forall|x: Seq<char>| #[trigger] leq(x, x) by {
        lemma_text_le_reflexive(x);
    }
    assert forall|x: Seq<char>, y: Seq<char>| #[trigger] leq(x, y) && #[trigger] leq(y, x) implies x
        == y by {
        lemma_text_le_antisymmetric(x, y);
    }
    assert forall|x: Seq<char>, y: Seq<char>, z: Seq<char>|
        #[trigger] leq(x, y) && #[trigger] leq(y, z) implies leq(x, z) by {
        lemma_text_le_transitive(z, y, x);
    }
    assert forall|x: Seq<char>, y: Seq<char>| #[trigger] leq(x, y) || #[trigger] leq(y, x) by {
        lemma_text_le_total(x, y);
    }
}

proof fn lemma_text_le_common_prefix(a: Seq<char>, b: Seq<char>, i: int)
    requires
        0 <= i <= a.len(),
        i <= b.len(),
        a.take(i) == b.take(i),
    ensures
        text_le(a, b) == text_le(a.skip(i), b.skip(i)),
    decreases i,
{
    if i > 0 {
        assert(a[0] == a.take(i)[0]);
        assert(b[0] == b.take(i)[0]);
        assert(a.drop_first().take(i - 1) =~= a.take(i).drop_first());
        assert(b.drop_first().take(i - 1) =~= b.take(i).drop_first());
        lemma_text_le_common_prefix(a.drop_first(), b.drop_first(), i - 1);
        assert(a.drop_first().skip(i - 1) =~= a.skip(i));
        assert(b.drop_first().skip(i - 1) =~= b.skip(i));
    } else {
        assert(a.skip(0) =~= a);
        assert(b.skip(0) =~= b);
    }
}

/// Whether `a` comes no later than `b` in character order.
pub fn text_at_most(a: &str, b: &str) -> (r: bool)
    ensures
        r == text_le(a@, b@),
{
    let n = a.unicode_len();
    let m = b.unicode_len();
    let mut i: usize = 0;
    while i < n && i < m
        invariant
            n == a@.len(),
            m == b@.len(),
            i <= n,
            i <= m,
            a@.take(i as int) == b@.take(i as int),
        decreases n - i,
    {
        let x = a.get_char(i);
        let y = b.get_char(i);
        if x != y {
            proof {
                lemma_text_le_common_prefix(a@, b@, i as int);
                assert(a@.skip(i as int)[0] == x);
                assert(b@.skip(i as int)[0] == y);
            }
            return (x as u32) < (y as u32);
        }
        assert(a@.take(i + 1) =~= a@.take(i as int).push(x));
        assert(b@.take(i + 1) =~= b@.take(i as int).push(y));
        i = i + 1;
    }
    proof {
        lemma_text_le_common_prefix(a@, b@, i as int);
    }
    n <= m
}

/// The texts of a list of strings.
pub open spec fn texts(v: Seq<String>) -> Seq<Seq<char>> {
    v.map_values(|s: String| s@)
}

/// Sorts texts so that later ones come first, as
/// `sort_unstable_by(|left, right| right.cmp(left))` orders them.
pub fn sort_later_first(items: &Vec<String>) -> (sorted: Vec<String>)
    ensures
        texts(sorted@) == texts(items@).sort_by(later_first()),
{
    let ghost leq = later_first();
    proof {
        lemma_later_first_total();
    }
    let mut sorted: Vec<String> = Vec::new();
    let mut i: usize = 0;
    while i < items.len()
        invariant
            leq == later_first(),
            total_ordering(leq),
            i <= items.len(),
            sorted_by(texts(sorted@), leq),
            texts(sorted@).to_multiset() == texts(items@).take(i as int).to_multiset(),
        decreases items.len() - i,
    {
        let item = items[i].clone();
        let ghost x = item@;
        let ghost before = texts(sorted@);
        let mut p: usize = 0;
        while p < sorted.len() && text_at_most(item.as_str(), sorted[p].as_str())
            invariant
                leq == later_first(),
                total_ordering(leq),
                before == texts(sorted@),
                x == item@,
                p <= sorted.len(),
                forall|k: int| 0 <= k < p ==> text_le(x, #[trigger] before[k]),
            decreases sorted.len() - p,
        {
            p = p + 1;
        }
        proof {
            if p < sorted.len() {
                assert(!text_le(x, before[p as int]));
                lemma_text_le_total(x, before[p as int]);
            }
        }
        sorted.insert(p, item);
        proof {
            let after = texts(sorted@);
            assert(after =~= before.insert(p as int, x));
            assert forall|a: int, b: int| 0 <= a < b < after.len() implies #[trigger] leq(
                after[a],
                after[b],
            ) by {
                if b < p {
                    assert(leq(before[a], before[b]));
                } else if a < p && b == p {
                    assert(text_le(x, before[a]));
                } else if a < p && b > p {
                    assert(leq(before[a], before[b - 1]));
                } else if a == p {
                    assert(text_le(before[p as int], x));
                    if b - 1 > p {
                        assert(leq(before[p as int], before[b - 1]));
                        lemma_text_le_transitive(before[b - 1], before[p as int], x);
                    }
                } else {
                    assert(leq(before[a - 1], before[b - 1]));
                }
            }
            vstd::seq_lib::to_multiset_insert(before, p as int, x);
            assert(texts(items@).take(i + 1) =~= texts(items@).take(i as int).push(x));
        }
        i = i + 1;
    }
    proof {
        assert(texts(items@).take(items.len() as int) =~= texts(items@));
        texts(items@).lemma_sort_by_ensures(leq);
        vstd::seq_lib::lemma_sorted_unique(texts(sorted@), texts(items@).sort_by(leq), leq);
    }
    sorted
}

} // verus!
