//! Ordering of texts and stable sorting: the lexicographic order of `String`
//! (code point by code point, which is the order of their UTF-8 bytes), a
//! stable insertion sort over any element type with a verified comparison,
//! and the removal of consecutive duplicates.

use vstd::prelude::*;
use crate::text::{chars_of, str_eq};

verus! {

/// Strict lexicographic order of texts by code points.
pub open spec fn text_lt(a: Seq<char>, b: Seq<char>) -> bool
    decreases a.len(),
{
    if a.len() == 0 {
        b.len() > 0
    } else if b.len() == 0 {
        false
    } else if a[0] != b[0] {
        (a[0] as u32) < (b[0] as u32)
    } else {
        text_lt(a.drop_first(), b.drop_first())
    }
}

/// Lexicographic `<=` of texts.
pub open spec fn text_le(a: Seq<char>, b: Seq<char>) -> bool {
    !text_lt(b, a)
}

proof fn lemma_text_lt_skip(a: Seq<char>, b: Seq<char>, i: int)
    requires
        0 <= i < a.len(),
        i < b.len(),
        a[i] == b[i],
    ensures
        text_lt(a.skip(i), b.skip(i)) == text_lt(a.skip(i + 1), b.skip(i + 1)),
{
    assert(a.skip(i).drop_first() =~= a.skip(i + 1));
    assert(b.skip(i).drop_first() =~= b.skip(i + 1));
}

/// `a < b` in the order of `String`.
pub fn str_lt(a: &str, b: &str) -> (r: bool)
    ensures
        r == text_lt(a@, b@),
{
    let x = chars_of(a);
    let y = chars_of(b);
    let mut i: usize = 0;
    proof {
        assert(a@.skip(0) =~= a@);
        assert(b@.skip(0) =~= b@);
    }
    while i < x.len() && i < y.len()
        invariant
            x@ == a@,
            y@ == b@,
            i <= x.len(),
            i <= y.len(),
            text_lt(a@, b@) == text_lt(a@.skip(i as int), b@.skip(i as int)),
        decreases x.len() - i,
    {
        let c = x[i];
        let d = y[i];
        if c != d {
            let cu = c as u32;
            let du = d as u32;
            return cu < du;
        }
        proof {
            lemma_text_lt_skip(a@, b@, i as int);
        }
        i = i + 1;
    }
    proof {
        if i == x.len() {
            assert(a@.skip(i as int).len() == 0);
        } else {
            assert(b@.skip(i as int).len() == 0);
        }
    }
    i == x.len() && i < y.len()
}

/// A type whose values are compared by a verified total preorder.
pub trait Ordered: Sized {
    /// `a` may stand before `b`.
    spec fn le_spec(a: Self, b: Self) -> bool;

    fn le(&self, other: &Self) -> (r: bool)
        ensures
            r == Self::le_spec(*self, *other);
}

impl Ordered for String {
    open spec fn le_spec(a: Self, b: Self) -> bool {
        text_le(a@, b@)
    }

    fn le(&self, other: &Self) -> (r: bool) {
        !str_lt(other.as_str(), self.as_str())
    }
}

/// Inserts `x` into a sorted sequence after every element that may stand
/// before it, which keeps equal elements in their arrival order.
pub open spec fn insert_sorted<T: Ordered>(s: Seq<T>, x: T) -> Seq<T>
    decreases s.len(),
{
    if s.len() == 0 {
        seq![x]
    } else if T::le_spec(s.last(), x) {
        s.push(x)
    } else {
        insert_sorted(s.drop_last(), x).push(s.last())
    }
}

/// The stable sort of a sequence (what `sort_by` computes for a total
/// preorder).
pub open spec fn stable_sort<T: Ordered>(s: Seq<T>) -> Seq<T>
    decreases s.len(),
{
    if s.len() == 0 {
        Seq::empty()
    } else {
        insert_sorted(stable_sort(s.drop_last()), s.last())
    }
}

proof fn lemma_insert_sorted_len<T: Ordered>(s: Seq<T>, x: T)
    ensures
        insert_sorted(s, x).len() == s.len() + 1,
    decreases s.len(),
{
    if s.len() > 0 && !T::le_spec(s.last(), x) {
        lemma_insert_sorted_len(s.drop_last(), x);
    }
}

/// Inserts `x` at its stable place in `v`.
pub fn insert_in_order<T: Ordered>(v: &mut Vec<T>, x: T)
    ensures
        final(v)@ == insert_sorted(old(v)@, x),
{
    let mut i: usize = v.len();
    let ghost s = v@;
    proof {
        assert(s.take(i as int) =~= s);
        assert(s.skip(i as int) =~= Seq::<T>::empty());
        assert(insert_sorted(s, x) =~= insert_sorted(s.take(i as int), x) + s.skip(i as int));
    }
    while i > 0 && !v[i - 1].le(&x)
        invariant
            v@ == s,
            i <= s.len(),
            insert_sorted(s, x) == insert_sorted(s.take(i as int), x) + s.skip(i as int),
        decreases i,
    {
        proof {
            let t = s.take(i as int);
            assert(t.last() == s[i - 1]);
            assert(t.drop_last() =~= s.take(i - 1));
            assert(insert_sorted(t, x) == insert_sorted(s.take(i - 1), x).push(s[i - 1]));
            assert(s.skip(i - 1) =~= seq![s[i - 1]] + s.skip(i as int));
            assert(insert_sorted(s.take(i - 1), x).push(s[i - 1]) + s.skip(i as int)
                =~= insert_sorted(s.take(i - 1), x) + s.skip(i - 1));
        }
        i = i - 1;
    }
    proof {
        let t = s.take(i as int);
        if i == 0 {
            assert(t.len() == 0);
            assert(insert_sorted(t, x) == seq![x]);
        } else {
            assert(t.last() == s[i - 1]);
            assert(insert_sorted(t, x) == t.push(x));
        }
        assert(insert_sorted(t, x) + s.skip(i as int) =~= s.insert(i as int, x));
    }
    v.insert(i, x);
}

/// Sorts `v` stably by the order of its element type (`sort_by`).
pub fn sort_stable<T: Ordered>(v: Vec<T>) -> (r: Vec<T>)
    ensures
        r@ == stable_sort(v@),
{
    let ghost orig = v@;
    let mut rest = v;
    let n: usize = rest.len();
    let mut out: Vec<T> = Vec::new();
    let mut k: usize = 0;
    proof {
        assert(orig.take(0) =~= Seq::<T>::empty());
        assert(orig.skip(0) =~= orig);
    }
    while rest.len() > 0
        invariant
            k <= orig.len(),
            rest@ == orig.skip(k as int),
            rest@.len() + k == orig.len(),
            orig.len() == n,
            out@ == stable_sort(orig.take(k as int)),
        decreases rest.len(),
    {
        let x = rest.remove(0);
        proof {
            assert(orig.take(k + 1).drop_last() =~= orig.take(k as int));
            assert(orig.take(k + 1).last() == orig[k as int]);
            assert(rest@ =~= orig.skip(k + 1));
        }
        insert_in_order(&mut out, x);
        k = k + 1;
    }
    proof {
        assert(orig.take(k as int) =~= orig);
    }
    out
}

/// A sequence with each run of equal neighbours collapsed to one (`dedup`).
pub open spec fn dedup_seq<T>(s: Seq<T>) -> Seq<T>
    decreases s.len(),
{
    if s.len() == 0 {
        s
    } else {
        let d = dedup_seq(s.drop_last());
        if d.len() > 0 && d.last() == s.last() {
            d
        } else {
            d.push(s.last())
        }
    }
}

/// `Vec::dedup` on texts.
pub fn dedup_strings(v: Vec<String>) -> (r: Vec<String>)
    ensures
        r@.map_values(|s: String| s@) == dedup_seq(v@.map_values(|s: String| s@)),
{
    let ghost orig = v@.map_values(|s: String| s@);
    let mut rest = v;
    let n: usize = rest.len();
    let mut out: Vec<String> = Vec::new();
    let mut k: usize = 0;
    proof {
        assert(orig.take(0) =~= Seq::<Seq<char>>::empty());
        assert(out@.map_values(|s: String| s@) =~= Seq::<Seq<char>>::empty());
    }
    while rest.len() > 0
        invariant
            k <= orig.len(),
            rest@.map_values(|s: String| s@) == orig.skip(k as int),
            rest@.len() + k == orig.len(),
            orig.len() == n,
            out@.map_values(|s: String| s@) == dedup_seq(orig.take(k as int)),
        decreases rest.len(),
    {
        let ghost before = rest@;
        let x = rest.remove(0);
        proof {
            assert(orig.take(k + 1).drop_last() =~= orig.take(k as int));
            assert(before.map_values(|s: String| s@)[0] == x@);
            assert(orig.take(k + 1).last() == x@);
            assert(rest@ =~= before.subrange(1, before.len() as int));
            assert forall|j: int| 0 <= j < rest@.len() implies #[trigger] rest@[j]@ == orig.skip(
                k + 1,
            )[j] by {
                assert(before.map_values(|s: String| s@)[j + 1] == orig.skip(k as int)[j + 1]);
            }
            assert(rest@.map_values(|s: String| s@) =~= orig.skip(k + 1));
        }
        let n = out.len();
        let keep = n == 0 || !str_eq(out[n - 1].as_str(), x.as_str());
        if keep {
            out.push(x);
            proof {
                assert(out@.map_values(|s: String| s@) =~= dedup_seq(orig.take(k as int)).push(
                    x@,
                ));
            }
        }
        k = k + 1;
    }
    proof {
        assert(orig.take(k as int) =~= orig);
    }
    out
}


/// The views of a sequence of strings.
pub open spec fn views(v: Seq<String>) -> Seq<Seq<char>> {
    v.map_values(|s: String| s@)
}

/// Inserts a text into a sorted sequence of texts after its equals.
pub open spec fn insert_text(s: Seq<Seq<char>>, x: Seq<char>) -> Seq<Seq<char>>
    decreases s.len(),
{
    if s.len() == 0 {
        seq![x]
    } else if text_le(s.last(), x) {
        s.push(x)
    } else {
        insert_text(s.drop_last(), x).push(s.last())
    }
}

/// Texts in ascending order (`sort` on strings).
pub open spec fn sort_texts(s: Seq<Seq<char>>) -> Seq<Seq<char>>
    decreases s.len(),
{
    if s.len() == 0 {
        Seq::empty()
    } else {
        insert_text(sort_texts(s.drop_last()), s.last())
    }
}

/// Texts sorted ascending with duplicates removed (`sort` then `dedup`),
/// the order in which a `BTreeSet` of them is walked.
pub open spec fn sorted_unique(s: Seq<Seq<char>>) -> Seq<Seq<char>> {
    dedup_seq(sort_texts(s))
}

proof fn lemma_insert_views(s: Seq<String>, x: String)
    ensures
        views(insert_sorted(s, x)) == insert_text(views(s), x@),
    decreases s.len(),
{
    if s.len() == 0 {
        assert(views(seq![x]) =~= seq![x@]);
    } else {
        assert(views(s).last() == s.last()@);
        assert(views(s.drop_last()) =~= views(s).drop_last());
        if String::le_spec(s.last(), x) {
            assert(views(s.push(x)) =~= views(s).push(x@));
        } else {
            lemma_insert_views(s.drop_last(), x);
            assert(views(insert_sorted(s.drop_last(), x).push(s.last())) =~= views(
                insert_sorted(s.drop_last(), x),
            ).push(s.last()@));
        }
    }
}

/// Sorting strings and then viewing them is sorting their texts.
pub proof fn lemma_sort_views(s: Seq<String>)
    ensures
        views(stable_sort(s)) == sort_texts(views(s)),
    decreases s.len(),
{
    if s.len() == 0 {
        assert(views(Seq::<String>::empty()) =~= Seq::<Seq<char>>::empty());
    } else {
        lemma_sort_views(s.drop_last());
        assert(views(s.drop_last()) =~= views(s).drop_last());
        assert(views(s).last() == s.last()@);
        lemma_insert_views(stable_sort(s.drop_last()), s.last());
    }
}

/// Sorts texts ascending and removes duplicates.
pub fn sort_dedup_strings(v: Vec<String>) -> (r: Vec<String>)
    ensures
        views(r@) == sorted_unique(views(v@)),
{
    let ghost vv = v@;
    let sorted = sort_stable(v);
    proof {
        lemma_sort_views(vv);
    }
    dedup_strings(sorted)
}

/// Texts joined with a separator (`join`).
pub open spec fn join_texts(items: Seq<Seq<char>>, sep: Seq<char>) -> Seq<char>
    decreases items.len(),
{
    if items.len() == 0 {
        Seq::empty()
    } else if items.len() == 1 {
        items[0]
    } else {
        join_texts(items.drop_last(), sep) + sep + items.last()
    }
}

/// `items.join(sep)`.
pub fn join_strings(items: &Vec<String>, sep: &str) -> (r: String)
    ensures
        r@ == join_texts(views(items@), sep@),
{
    let mut out = String::new();
    let mut i: usize = 0;
    proof {
        assert(views(items@.take(0)) =~= Seq::<Seq<char>>::empty());
    }
    while i < items.len()
        invariant
            i <= items@.len(),
            out@ == join_texts(views(items@.take(i as int)), sep@),
        decreases items.len() - i,
    {
        proof {
            assert(views(items@.take(i + 1)).drop_last() =~= views(items@.take(i as int)));
            assert(views(items@.take(i + 1)).last() == items@[i as int]@);
        }
        if i > 0 {
            out.append(sep);
        } else {
            assert(views(items@.take(1)) =~= seq![items@[0]@]);
        }
        out.append(items[i].as_str());
        i = i + 1;
    }
    proof {
        assert(items@.take(i as int) =~= items@);
    }
    out
}


/// Sorting keeps the length.
pub proof fn lemma_stable_sort_len<T: Ordered>(s: Seq<T>)
    ensures
        stable_sort(s).len() == s.len(),
    decreases s.len(),
{
    if s.len() > 0 {
        lemma_stable_sort_len(s.drop_last());
        lemma_insert_sorted_len(stable_sort(s.drop_last()), s.last());
    }
}

proof fn lemma_insert_text_len(s: Seq<Seq<char>>, x: Seq<char>)
    ensures
        insert_text(s, x).len() == s.len() + 1,
    decreases s.len(),
{
    if s.len() > 0 && !text_le(s.last(), x) {
        lemma_insert_text_len(s.drop_last(), x);
    }
}

/// Sorting texts keeps the length.
pub proof fn lemma_sort_texts_len(s: Seq<Seq<char>>)
    ensures
        sort_texts(s).len() == s.len(),
    decreases s.len(),
{
    if s.len() > 0 {
        lemma_sort_texts_len(s.drop_last());
        lemma_insert_text_len(sort_texts(s.drop_last()), s.last());
    }
}

proof fn lemma_dedup_nonempty<T>(s: Seq<T>)
    requires
        s.len() > 0,
    ensures
        dedup_seq(s).len() > 0,
    decreases s.len(),
{
}

/// Sorting and deduplicating a non-empty list of texts leaves some text.
pub proof fn lemma_sorted_unique_nonempty(s: Seq<Seq<char>>)
    requires
        s.len() > 0,
    ensures
        sorted_unique(s).len() > 0,
{
    lemma_sort_texts_len(s);
    lemma_dedup_nonempty(sort_texts(s));
}


// ---------------------------------------------------------------------------
// The order laws
// ---------------------------------------------------------------------------

/// Two texts are equal, or one comes strictly before the other.
pub proof fn lemma_text_lt_trichotomy(a: Seq<char>, b: Seq<char>)
    ensures
        text_lt(a, b) || text_lt(b, a) || a == b,
    decreases a.len(),
{
    if a.len() == 0 {
        if b.len() == 0 {
            assert(a =~= b);
        }
    } else if b.len() == 0 {
    } else if a[0] != b[0] {
        vstd::utf8::char_u32_cast(a[0], a[0] as u32);
        vstd::utf8::char_u32_cast(b[0], b[0] as u32);
    } else {
        lemma_text_lt_trichotomy(a.drop_first(), b.drop_first());
        if a.drop_first() == b.drop_first() {
            assert(a =~= seq![a[0]] + a.drop_first());
            assert(b =~= seq![b[0]] + b.drop_first());
        }
    }
}

/// No text comes both before and after another.
pub proof fn lemma_text_lt_asymmetric(a: Seq<char>, b: Seq<char>)
    ensures
        !(text_lt(a, b) && text_lt(b, a)),
    decreases a.len(),
{
    if a.len() > 0 && b.len() > 0 && a[0] == b[0] {
        lemma_text_lt_asymmetric(a.drop_first(), b.drop_first());
    }
}

/// The strict order of texts is transitive.
pub proof fn lemma_text_lt_transitive(a: Seq<char>, b: Seq<char>, c: Seq<char>)
    requires
        text_lt(a, b),
        text_lt(b, c),
    ensures
        text_lt(a, c),
    decreases a.len(),
{
    if a.len() > 0 && b.len() > 0 && c.len() > 0 && a[0] == b[0] && b[0] == c[0] {
        lemma_text_lt_transitive(a.drop_first(), b.drop_first(), c.drop_first());
    }
}

/// `text_le` is a total preorder: any two texts compare, and it chains.
pub proof fn lemma_text_le_total_preorder()
    ensures
        forall|a: Seq<char>, b: Seq<char>| text_le(a, b) || text_le(b, a),
        forall|a: Seq<char>, b: Seq<char>, c: Seq<char>|
            text_le(a, b) && text_le(b, c) ==> text_le(a, c),
{
    assert forall|a: Seq<char>, b: Seq<char>| text_le(a, b) || text_le(b, a) by {
        lemma_text_lt_asymmetric(a, b);
    }
    assert forall|a: Seq<char>, b: Seq<char>, c: Seq<char>|
        text_le(a, b) && text_le(b, c) implies text_le(a, c) by {
        lemma_text_lt_trichotomy(a, b);
        lemma_text_lt_trichotomy(b, c);
        if text_lt(a, b) && text_lt(b, c) {
            lemma_text_lt_transitive(a, b, c);
        }
        lemma_text_lt_asymmetric(a, c);
    }
}

/// A sequence in which every element may stand before every later one.
pub open spec fn sorted_seq<T: Ordered>(s: Seq<T>) -> bool {
    forall|i: int, j: int| 0 <= i < j < s.len() ==> T::le_spec(#[trigger] s[i], #[trigger] s[j])
}

/// The order of `T` is total and transitive.
pub open spec fn total_preorder<T: Ordered>() -> bool {
    &&& forall|a: T, b: T| T::le_spec(a, b) || T::le_spec(b, a)
    &&& forall|a: T, b: T, c: T|
        #![trigger T::le_spec(a, b), T::le_spec(b, c)]
        T::le_spec(a, b) && T::le_spec(b, c) ==> T::le_spec(a, c)
}

proof fn lemma_insert_sorted_elements<T: Ordered>(s: Seq<T>, x: T)
    ensures
        forall|k: int|
            0 <= k < insert_sorted(s, x).len() ==> insert_sorted(s, x)[k] == x || exists|i: int|
                0 <= i < s.len() && #[trigger] s[i] == insert_sorted(s, x)[k],
    decreases s.len(),
{
    lemma_insert_sorted_len(s, x);
    if s.len() == 0 {
    } else if T::le_spec(s.last(), x) {
        assert forall|k: int| 0 <= k < insert_sorted(s, x).len() implies insert_sorted(s, x)[k]
            == x || exists|i: int| 0 <= i < s.len() && #[trigger] s[i] == insert_sorted(s, x)[k] by {
            if k < s.len() {
                assert(s[k] == insert_sorted(s, x)[k]);
            }
        }
    } else {
        let r = insert_sorted(s.drop_last(), x);
        lemma_insert_sorted_elements(s.drop_last(), x);
        lemma_insert_sorted_len(s.drop_last(), x);
        assert forall|k: int| 0 <= k < insert_sorted(s, x).len() implies insert_sorted(s, x)[k]
            == x || exists|i: int| 0 <= i < s.len() && #[trigger] s[i] == insert_sorted(s, x)[k] by {
            if k < r.len() {
                if r[k] != x {
                    let i = choose|i: int| 0 <= i < s.drop_last().len() && s.drop_last()[i] == r[k];
                    assert(s[i] == r[k]);
                }
            } else {
                assert(s[s.len() - 1] == insert_sorted(s, x)[k]);
            }
        }
    }
}

proof fn lemma_insert_sorted_sorted<T: Ordered>(s: Seq<T>, x: T)
    requires
        total_preorder::<T>(),
        sorted_seq(s),
    ensures
        sorted_seq(insert_sorted(s, x)),
    decreases s.len(),
{
    lemma_insert_sorted_len(s, x);
    if s.len() == 0 {
    } else if T::le_spec(s.last(), x) {
        assert forall|i: int, j: int| 0 <= i < j < s.len() + 1 implies T::le_spec(
            #[trigger] s.push(x)[i],
            #[trigger] s.push(x)[j],
        ) by {
            if j == s.len() {
                if i < s.len() - 1 {
                    assert(T::le_spec(s[i], s[s.len() - 1]));
                }
            }
        }
    } else {
        let r = insert_sorted(s.drop_last(), x);
        lemma_insert_sorted_sorted(s.drop_last(), x);
        lemma_insert_sorted_elements(s.drop_last(), x);
        lemma_insert_sorted_len(s.drop_last(), x);
        let l = s.last();
        assert(T::le_spec(x, l));
        assert forall|i: int, j: int| 0 <= i < j < r.len() + 1 implies T::le_spec(
            #[trigger] r.push(l)[i],
            #[trigger] r.push(l)[j],
        ) by {
            if j == r.len() {
                if r[i] != x {
                    let k = choose|k: int| 0 <= k < s.drop_last().len() && s.drop_last()[k] == r[i];
                    assert(T::le_spec(s[k], s[s.len() - 1]));
                }
            }
        }
    }
}

/// Sorting by a total preorder yields a sorted sequence.
pub proof fn lemma_stable_sort_sorted<T: Ordered>(s: Seq<T>)
    requires
        total_preorder::<T>(),
    ensures
        sorted_seq(stable_sort(s)),
    decreases s.len(),
{
    if s.len() > 0 {
        lemma_stable_sort_sorted(s.drop_last());
        lemma_insert_sorted_sorted(stable_sort(s.drop_last()), s.last());
    }
}

proof fn lemma_insert_sorted_multiset<T: Ordered>(s: Seq<T>, x: T)
    ensures
        insert_sorted(s, x).to_multiset() =~= s.to_multiset().insert(x),
    decreases s.len(),
{
    broadcast use vstd::seq_lib::group_to_multiset_ensures;

    if s.len() == 0 {
        assert(seq![x] =~= Seq::<T>::empty().push(x));
    } else {
        assert(s =~= s.drop_last().push(s.last()));
        if !T::le_spec(s.last(), x) {
            lemma_insert_sorted_multiset(s.drop_last(), x);
        }
    }
}

/// Sorting only reorders: the sorted sequence holds exactly the elements of
/// the input, each as often.
pub proof fn lemma_stable_sort_permutes<T: Ordered>(s: Seq<T>)
    ensures
        stable_sort(s).to_multiset() =~= s.to_multiset(),
    decreases s.len(),
{
    broadcast use vstd::seq_lib::group_to_multiset_ensures;

    if s.len() > 0 {
        lemma_stable_sort_permutes(s.drop_last());
        lemma_insert_sorted_multiset(stable_sort(s.drop_last()), s.last());
        assert(s =~= s.drop_last().push(s.last()));
    }
}

} // verus!
