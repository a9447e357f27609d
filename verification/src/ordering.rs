//! The order of texts that `String`'s `Ord` gives, and sorting keyed lists
//! by it.

use vstd::prelude::*;
use crate::text::chars_of;
use vstd::multiset::Multiset;

verus! {

/// `a` comes no later than `b`: compared character by character by code
/// point, a prefix first (the order of `str::cmp`, since UTF-8 keeps the
/// order of code points).
pub open spec fn text_le(a: Seq<char>, b: Seq<char>) -> bool
    decreases a.len(),
{
    if a.len() == 0 {
        true
    } else if b.len() == 0 {
        false
    } else if a[0] != b[0] {
        (a[0] as u32) < (b[0] as u32)
    } else {
        text_le(a.drop_first(), b.drop_first())
    }
}

pub proof fn lemma_text_le_total(a: Seq<char>, b: Seq<char>)
    ensures
        text_le(a, b) || text_le(b, a),
    decreases a.len(),
{
    if a.len() > 0 && b.len() > 0 && a[0] == b[0] {
        lemma_text_le_total(a.drop_first(), b.drop_first());
    } else if a.len() > 0 && b.len() > 0 {
        vstd::utf8::char_u32_cast(a[0], a[0] as u32);
        vstd::utf8::char_u32_cast(b[0], b[0] as u32);
    }
}

pub proof fn lemma_text_le_transitive(a: Seq<char>, b: Seq<char>, c: Seq<char>)
    requires
        text_le(a, b),
        text_le(b, c),
    ensures
        text_le(a, c),
    decreases a.len(),
{
    if a.len() > 0 && b.len() > 0 && c.len() > 0 {
        if a[0] == b[0] && b[0] == c[0] {
            lemma_text_le_transitive(a.drop_first(), b.drop_first(), c.drop_first());
        } else {
            vstd::utf8::char_u32_cast(a[0], a[0] as u32);
            vstd::utf8::char_u32_cast(b[0], b[0] as u32);
            vstd::utf8::char_u32_cast(c[0], c[0] as u32);
        }
    }
}

pub proof fn lemma_text_le_antisymmetric(a: Seq<char>, b: Seq<char>)
    requires
        text_le(a, b),
        text_le(b, a),
    ensures
        a == b,
    decreases a.len(),
{
    if a.len() > 0 && b.len() > 0 {
        if a[0] == b[0] {
            lemma_text_le_antisymmetric(a.drop_first(), b.drop_first());
            assert(a =~= seq![a[0]] + a.drop_first());
            assert(b =~= seq![b[0]] + b.drop_first());
        } else {
            vstd::utf8::char_u32_cast(a[0], a[0] as u32);
            vstd::utf8::char_u32_cast(b[0], b[0] as u32);
        }
    } else if a.len() == 0 && b.len() == 0 {
        assert(a =~= b);
    }
}

pub proof fn lemma_text_le_reflexive(a: Seq<char>)
    ensures
        text_le(a, a),
    decreases a.len(),
{
    if a.len() > 0 {
        lemma_text_le_reflexive(a.drop_first());
    }
}

/// Whether `a` comes no later than `b`.
pub fn text_le_exec(a: &str, b: &str) -> (r: bool)
    ensures
        r == text_le(a@, b@),
{
    let x = chars_of(a);
    let y = chars_of(b);
    let mut i: usize = 0;
    assert(a@.subrange(0, a@.len() as int) =~= a@);
    assert(b@.subrange(0, b@.len() as int) =~= b@);
    while i < x.len() && i < y.len() && x[i] == y[i]
        invariant
            x@ == a@,
            y@ == b@,
            i <= x@.len(),
            i <= y@.len(),
            text_le(a@, b@) == text_le(a@.subrange(i as int, a@.len() as int), b@.subrange(i as int, b@.len() as int)),
        decreases x.len() - i,
    {
        let ghost sa = a@.subrange(i as int, a@.len() as int);
        let ghost sb = b@.subrange(i as int, b@.len() as int);
        assert(sa.drop_first() =~= a@.subrange(i + 1, a@.len() as int));
        assert(sb.drop_first() =~= b@.subrange(i + 1, b@.len() as int));
        i = i + 1;
    }
    let ghost sa = a@.subrange(i as int, a@.len() as int);
    let ghost sb = b@.subrange(i as int, b@.len() as int);
    if i == x.len() {
        assert(sa.len() == 0);
        true
    } else if i == y.len() {
        assert(sb.len() == 0);
        false
    } else {
        assert(sa[0] == x@[i as int] && sb[0] == y@[i as int]);
        (x[i] as u32) < (y[i] as u32)
    }
}

/// A value that sorts by a text key.
pub trait SortKey {
    spec fn sort_key(&self) -> Seq<char>;

    fn sort_key_str(&self) -> (r: &str)
        ensures
            r@ == self.sort_key(),
    ;
}

/// The values are in key order.
pub open spec fn sorted_by_key<T: SortKey>(v: Seq<T>) -> bool {
    forall|i: int, j: int| 0 <= i < j < v.len() ==> text_le(#[trigger] v[i].sort_key(), #[trigger] v[j].sort_key())
}

/// `v` sorted by key; values with equal keys keep their order among
/// themselves only as far as an insertion sort keeps it.
pub fn sort_by_key<T: SortKey>(v: Vec<T>) -> (r: Vec<T>)
    ensures
        sorted_by_key(r@),
        r@.to_multiset() == v@.to_multiset(),
{
    broadcast use {
        vstd::seq_lib::group_to_multiset_ensures,
        vstd::multiset::group_multiset_axioms,
        vstd::multiset::lemma_multiset_empty_len,
    };
    let mut out: Vec<T> = Vec::new();
    let mut rest = v;
    let ghost initial = rest@;
    proof {
        assert(out@.to_multiset() =~= Multiset::<T>::empty());
    }
    while rest.len() > 0
        invariant
            sorted_by_key(out@),
            out@.to_multiset().add(rest@.to_multiset()) == initial.to_multiset(),
        decreases rest.len(),
    {
        let ghost before_rest = rest@;
        let x = rest.pop().unwrap();
        proof {
            assert(before_rest =~= rest@.push(x));
            vstd::seq_lib::to_multiset_build(rest@, x);
        }
        let mut p: usize = 0;
        while p < out.len() && text_le_exec(out[p].sort_key_str(), x.sort_key_str())
            invariant
                p <= out@.len(),
                sorted_by_key(out@),
                forall|i: int| 0 <= i < p ==> text_le(#[trigger] out@[i].sort_key(), x.sort_key()),
            decreases out.len() - p,
        {
            p = p + 1;
        }
        let ghost before_out = out@;
        proof {
            if p < out@.len() {
                lemma_text_le_total(before_out[p as int].sort_key(), x.sort_key());
            }
        }
        out.insert(p, x);
        proof {
            vstd::seq_lib::to_multiset_insert(before_out, p as int, x);
            assert forall|i: int, j: int| 0 <= i < j < out@.len() implies text_le(#[trigger] out@[i].sort_key(), #[trigger] out@[j].sort_key()) by {
                if j == p {
                    assert(out@[i] == before_out[i]);
                } else if i == p {
                    assert(out@[j] == before_out[j - 1]);
                    if j - 1 > p {
                        lemma_text_le_transitive(x.sort_key(), before_out[p as int].sort_key(), before_out[j - 1].sort_key());
                    }
                } else if i < p && j > p {
                    assert(out@[i] == before_out[i]);
                    assert(out@[j] == before_out[j - 1]);
                    assert(text_le(before_out[i].sort_key(), before_out[j - 1].sort_key()));
                } else if j < p {
                    assert(out@[i] == before_out[i]);
                    assert(out@[j] == before_out[j]);
                } else {
                    assert(out@[i] == before_out[i - 1]);
                    assert(out@[j] == before_out[j - 1]);
                }
            }
            assert(out@.to_multiset() == before_out.to_multiset().insert(x));
            assert(before_rest.to_multiset() == rest@.to_multiset().insert(x));
            assert(out@.to_multiset().add(rest@.to_multiset()) =~= before_out.to_multiset().add(before_rest.to_multiset()));
        }
    }
    proof {
        assert(rest@ =~= Seq::<T>::empty());
        assert(rest@.to_multiset() =~= Multiset::<T>::empty());
        assert(out@.to_multiset().add(Multiset::<T>::empty()) =~= out@.to_multiset());
    }
    out
}

/// Two arrangements of the same entries map to arrangements of the same
/// images.
pub proof fn lemma_multiset_map<A, B>(s1: Seq<A>, s2: Seq<A>, f: spec_fn(A) -> B)
    requires
        s1.to_multiset() == s2.to_multiset(),
    ensures
        s1.map_values(f).to_multiset() == s2.map_values(f).to_multiset(),
    decreases s1.len(),
{
    broadcast use {
        vstd::seq_lib::group_to_multiset_ensures,
        vstd::multiset::group_multiset_axioms,
        vstd::multiset::lemma_multiset_empty_len,
    };
    if s1.len() == 0 {
        assert(s2.to_multiset().len() == 0);
        assert(s2.len() == 0);
        assert(s1.map_values(f) =~= s2.map_values(f));
    } else {
        let x = s1.last();
        let r1 = s1.drop_last();
        assert(s1 =~= r1.push(x));
        vstd::seq_lib::to_multiset_build(r1, x);
        assert(s2.to_multiset().count(x) > 0);
        assert(s2.contains(x));
        let i = choose|i: int| 0 <= i < s2.len() && s2[i] == x;
        let r2 = s2.remove(i);
        vstd::seq_lib::to_multiset_remove(s2, i);
        assert(r1.to_multiset() =~= r2.to_multiset());
        lemma_multiset_map(r1, r2, f);
        assert(s1.map_values(f) =~= r1.map_values(f).push(f(x)));
        vstd::seq_lib::to_multiset_build(r1.map_values(f), f(x));
        assert(s2.map_values(f) =~= r2.map_values(f).insert(i, f(x)));
        vstd::seq_lib::to_multiset_insert(r2.map_values(f), i, f(x));
    }
}

} // verus!
