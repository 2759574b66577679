//! Byte-wise lexicographic order and the sorts built on it.
use vstd::prelude::*;
use crate::primitives::Address;

verus! {

broadcast use vstd::seq_lib::group_to_multiset_ensures;

/// `a` and `b` agree on their first `k` bytes.
pub open spec fn agree_before(a: Seq<u8>, b: Seq<u8>, k: int) -> bool {
    forall|i: int| 0 <= i < k ==> a[i] == b[i]
}

/// `a` sorts before `b`, decided at position `k`: they agree before `k`, and there `a`
/// has ended while `b` goes on, or `a` has the smaller byte.
pub open spec fn lex_lt_at(a: Seq<u8>, b: Seq<u8>, k: int) -> bool {
    &&& 0 <= k <= a.len()
    &&& k < b.len()
    &&& agree_before(a, b, k)
    &&& (k == a.len() || a[k] < b[k])
}

/// Strict lexicographic order on byte strings (the order of `[u8]`, and of `str` by its
/// UTF-8 bytes).
pub open spec fn lex_lt(a: Seq<u8>, b: Seq<u8>) -> bool {
    exists|k: int| #[trigger] lex_lt_at(a, b, k)
}

pub open spec fn lex_le(a: Seq<u8>, b: Seq<u8>) -> bool {
    a == b || lex_lt(a, b)
}

/// The strict order is transitive.
pub proof fn lemma_lex_lt_trans(a: Seq<u8>, b: Seq<u8>, c: Seq<u8>)
    requires
        lex_lt(a, b),
        lex_lt(b, c),
    ensures
        lex_lt(a, c),
{
    let k1 = choose|k: int| lex_lt_at(a, b, k);
    let k2 = choose|k: int| lex_lt_at(b, c, k);
    if k1 < k2 {
        assert(b[k1] == c[k1]);
        assert(lex_lt_at(a, c, k1));
    } else if k2 < k1 {
        assert(a[k2] == b[k2]);
        assert(lex_lt_at(a, c, k2));
    } else {
        assert(lex_lt_at(a, c, k1));
    }
}

/// The order is transitive.
pub proof fn lemma_lex_le_trans(a: Seq<u8>, b: Seq<u8>, c: Seq<u8>)
    requires
        lex_le(a, b),
        lex_le(b, c),
    ensures
        lex_le(a, c),
{
    if a != b && b != c {
        lemma_lex_lt_trans(a, b, c);
    }
}

/// No byte string sorts strictly before itself or before one that sorts before it.
pub proof fn lemma_lex_lt_asymmetric(a: Seq<u8>, b: Seq<u8>)
    requires
        lex_lt(a, b),
    ensures
        !lex_lt(b, a),
        a != b,
{
    let k1 = choose|k: int| lex_lt_at(a, b, k);
    if lex_lt(b, a) {
        let k2 = choose|k: int| lex_lt_at(b, a, k);
        if k1 < k2 {
            assert(b[k1] == a[k1]);
        } else if k2 < k1 {
            assert(a[k2] == b[k2]);
        }
    }
    if a == b {
        assert(k1 < a.len());
    }
}

/// The outcome of comparing two values.
#[derive(Clone, Copy, Debug, PartialEq, Eq, Structural)]
pub enum Cmp {
    Less,
    Equal,
    Greater,
}

/// Compares two byte strings lexicographically.
pub fn compare_bytes(a: &[u8], b: &[u8]) -> (c: Cmp)
    ensures
        c is Less ==> lex_lt(a@, b@),
        c is Equal ==> a@ == b@,
        c is Greater ==> lex_lt(b@, a@),
{
    let mut i: usize = 0;
    while i < a.len() && i < b.len() && a[i] == b[i]
        invariant
            i <= a.len(),
            i <= b.len(),
            agree_before(a@, b@, i as int),
        decreases a.len() - i,
    {
        i = i + 1;
    }
    if i < a.len() && i < b.len() {
        if a[i] < b[i] {
            assert(lex_lt_at(a@, b@, i as int));
            Cmp::Less
        } else {
            assert(lex_lt_at(b@, a@, i as int));
            Cmp::Greater
        }
    } else if a.len() == b.len() {
        assert(a@ =~= b@);
        Cmp::Equal
    } else if i == a.len() {
        assert(lex_lt_at(a@, b@, i as int));
        Cmp::Less
    } else {
        assert(lex_lt_at(b@, a@, i as int));
        Cmp::Greater
    }
}

/// Addresses ordered by their bytes, as alloy's `Address` orders them.
pub open spec fn address_le(a: Address, b: Address) -> bool {
    lex_le(a.0@, b.0@)
}

/// The addresses are in ascending byte order.
pub open spec fn addresses_sorted(s: Seq<Address>) -> bool {
    forall|i: int, j: int| 0 <= i < j < s.len() ==> address_le(#[trigger] s[i], #[trigger] s[j])
}

/// The addresses in ascending byte order; equal addresses stay.
pub fn sort_addresses(v: Vec<Address>) -> (r: Vec<Address>)
    ensures
        r@.to_multiset() == v@.to_multiset(),
        addresses_sorted(r@),
{
    let mut r: Vec<Address> = Vec::new();
    let mut i: usize = 0;
    while i < v.len()
        invariant
            i <= v.len(),
            addresses_sorted(r@),
            r@.to_multiset() == v@.subrange(0, i as int).to_multiset(),
        decreases v.len() - i,
    {
        let x = v[i];
        let mut p: usize = r.len();
        while p > 0
            invariant
                p <= r.len(),
                forall|k: int| p <= k < r.len() ==> lex_lt(x.0@, #[trigger] r@[k].0@),
            ensures
                p <= r.len(),
                forall|k: int| p <= k < r.len() ==> lex_lt(x.0@, #[trigger] r@[k].0@),
                p > 0 ==> address_le(r@[p - 1], x),
            decreases p,
        {
            let c = compare_bytes(x.0.as_slice(), r[p - 1].0.as_slice());
            match c {
                Cmp::Less => {
                    p = p - 1;
                },
                _ => {
                    break;
                },
            }
        }
        let ghost old_r = r@;
        r.insert(p, x);
        proof {
            assert forall|a: int, b: int| 0 <= a < b < r@.len() implies address_le(
                #[trigger] r@[a],
                #[trigger] r@[b],
            ) by {
                if b < p {
                    assert(address_le(old_r[a], old_r[b]));
                } else if b == p {
                    if a < p - 1 {
                        assert(address_le(old_r[a], old_r[p - 1]));
                        lemma_lex_le_trans(old_r[a].0@, old_r[p - 1].0@, x.0@);
                    }
                } else if a < p {
                    assert(address_le(old_r[a], old_r[b - 1]));
                } else if a == p {
                    assert(lex_lt(x.0@, old_r[b - 1].0@));
                } else {
                    assert(address_le(old_r[a - 1], old_r[b - 1]));
                }
            }
            assert(v@.subrange(0, i + 1) =~= v@.subrange(0, i as int).push(x));
        }
        i = i + 1;
    }
    proof {
        assert(v@.subrange(0, i as int) =~= v@);
    }
    r
}

/// The UTF-8 bytes of a key: strings are ordered by these.
pub open spec fn key_bytes(k: Seq<char>) -> Seq<u8> {
    vstd::utf8::encode_utf8(k)
}

/// The pairs are in ascending order of their keys' bytes (`String`'s order).
pub open spec fn pairs_sorted_by_key<V>(s: Seq<(String, V)>) -> bool {
    forall|i: int, j: int|
        0 <= i < j < s.len() ==> lex_le(key_bytes((#[trigger] s[i]).0@), key_bytes((#[trigger] s[j]).0@))
}

/// The pairs with key `k`, in their order.
pub open spec fn with_key<V>(s: Seq<(String, V)>, k: Seq<char>) -> Seq<(String, V)> {
    s.filter(key_is(k))
}

/// Whether a pair has the key `k`.
pub open spec fn key_is<V>(k: Seq<char>) -> spec_fn((String, V)) -> bool {
    |q: (String, V)| q.0@ == k
}

/// The pairs sorted by key; pairs with equal keys keep their relative order.
pub fn sort_pairs_by_key<V>(v: Vec<(String, V)>) -> (r: Vec<(String, V)>)
    ensures
        r@.to_multiset() == v@.to_multiset(),
        pairs_sorted_by_key(r@),
        forall|k: Seq<char>| #[trigger] with_key(r@, k) == with_key(v@, k),
{
    let mut r: Vec<(String, V)> = Vec::new();
    let mut rest = v;
    let ghost src = rest@;
    let mut i: usize = 0;
    assert(src.len() == rest.len());
    while rest.len() > 0
        invariant
            i + rest@.len() == src.len(),
            src.len() <= usize::MAX,
            rest@ == src.subrange(i as int, src.len() as int),
            pairs_sorted_by_key(r@),
            r@.to_multiset() == src.subrange(0, i as int).to_multiset(),
            forall|k: Seq<char>| #[trigger] with_key(r@, k) == with_key(src.subrange(0, i as int), k),
        decreases rest@.len(),
    {
        let x = rest.remove(0);
        let ghost xk = key_bytes(x.0@);
        let mut p: usize = r.len();
        while p > 0
            invariant
                p <= r.len(),
                xk == key_bytes(x.0@),
                forall|j: int| p <= j < r.len() ==> lex_lt(xk, key_bytes((#[trigger] r@[j]).0@)),
            ensures
                p <= r.len(),
                forall|j: int| p <= j < r.len() ==> lex_lt(xk, key_bytes((#[trigger] r@[j]).0@)),
                p > 0 ==> lex_le(key_bytes(r@[p - 1].0@), xk),
            decreases p,
        {
            let c = compare_bytes(x.0.as_str().as_bytes(), r[p - 1].0.as_str().as_bytes());
            match c {
                Cmp::Less => {
                    p = p - 1;
                },
                _ => {
                    break;
                },
            }
        }
        let ghost old_r = r@;
        r.insert(p, x);
        proof {
            assert(src[i as int] == x) by {
                assert(rest@.len() + 1 == src.subrange(i as int, src.len() as int).len());
            }
            assert forall|a: int, b: int| 0 <= a < b < r@.len() implies lex_le(
                key_bytes((#[trigger] r@[a]).0@),
                key_bytes((#[trigger] r@[b]).0@),
            ) by {
                if b < p {
                    assert(lex_le(key_bytes(old_r[a].0@), key_bytes(old_r[b].0@)));
                } else if b == p {
                    if a < p - 1 {
                        assert(lex_le(key_bytes(old_r[a].0@), key_bytes(old_r[p - 1].0@)));
                        lemma_lex_le_trans(key_bytes(old_r[a].0@), key_bytes(old_r[p - 1].0@), xk);
                    }
                } else if a < p {
                    assert(lex_le(key_bytes(old_r[a].0@), key_bytes(old_r[b - 1].0@)));
                } else if a == p {
                    assert(lex_lt(xk, key_bytes(old_r[b - 1].0@)));
                } else {
                    assert(lex_le(key_bytes(old_r[a - 1].0@), key_bytes(old_r[b - 1].0@)));
                }
            }
            let done = src.subrange(0, i as int);
            assert(src.subrange(0, i + 1) =~= done.push(x));
            let lo = old_r.subrange(0, p as int);
            let hi = old_r.subrange(p as int, old_r.len() as int);
            assert(old_r =~= lo + hi);
            assert(r@ =~= lo + seq![x] + hi);
            assert forall|k: Seq<char>| #[trigger] with_key(r@, k) == with_key(src.subrange(0, i + 1), k) by {
                let pred = key_is(k);
                Seq::filter_distributes_over_add(lo, hi, pred);
                Seq::filter_distributes_over_add(lo + seq![x], hi, pred);
                Seq::filter_distributes_over_add(lo, seq![x], pred);
                done.lemma_filter_push(x, pred);
                Seq::<(String, V)>::empty().lemma_filter_push(x, pred);
                assert(seq![x] =~= Seq::<(String, V)>::empty().push(x));
                assert(Seq::<(String, V)>::empty().filter(pred) =~= Seq::<(String, V)>::empty()) by {
                    reveal(Seq::filter);
                }
                assert(with_key(old_r, k) == with_key(done, k));
                assert(with_key(old_r, k) == lo.filter(pred) + hi.filter(pred));
                assert(with_key(r@, k) == (lo + seq![x]).filter(pred) + hi.filter(pred));
                assert((lo + seq![x]).filter(pred) == lo.filter(pred) + seq![x].filter(pred));
                if x.0@ == k {
                    assert(pred(x));
                    assert(seq![x].filter(pred) == seq![x]);
                    assert forall|j: int| 0 <= j < hi.len() implies !pred(#[trigger] hi[j]) by {
                        assert(hi[j] == old_r[p + j]);
                        assert(lex_lt(xk, key_bytes(old_r[p + j].0@)));
                        lemma_lex_lt_asymmetric(xk, key_bytes(old_r[p + j].0@));
                    }
                    assert(hi.all(|y: (String, V)| !pred(y)));
                    hi.lemma_all_neg_filter_empty(pred);
                    assert(hi.filter(pred) =~= Seq::<(String, V)>::empty());
                    assert(with_key(r@, k) =~= lo.filter(pred).push(x));
                    assert(with_key(src.subrange(0, i + 1), k) == with_key(done, k).push(x));
                } else {
                    assert(!pred(x));
                    assert(seq![x].filter(pred) =~= Seq::<(String, V)>::empty());
                    assert(with_key(r@, k) =~= lo.filter(pred) + hi.filter(pred));
                    assert(with_key(src.subrange(0, i + 1), k) == with_key(done, k));
                }
            }
            assert(rest@ =~= src.subrange(i + 1, src.len() as int));
        }
        i = i + 1;
    }
    proof {
        assert(src.subrange(0, i as int) =~= src);
    }
    r
}

/// The order is antisymmetric.
pub proof fn lemma_lex_le_antisymmetric(a: Seq<u8>, b: Seq<u8>)
    requires
        lex_le(a, b),
        lex_le(b, a),
    ensures
        a == b,
{
    if a != b {
        lemma_lex_lt_asymmetric(a, b);
    }
}

/// Splitting off the first pair of a list splits it off the pairs with its key.
proof fn lemma_with_key_first<V>(a: Seq<(String, V)>, k: Seq<char>)
    requires
        a.len() > 0,
    ensures
        with_key(a, k) == (if a[0].0@ == k {
            seq![a[0]]
        } else {
            Seq::empty()
        }) + with_key(a.drop_first(), k),
{
    assert(a =~= seq![a[0]] + a.drop_first());
    a.drop_first().lemma_filter_prepend(a[0], key_is(k));
}

/// A list that holds a pair with key `k` has pairs with that key.
proof fn lemma_with_key_nonempty<V>(a: Seq<(String, V)>, i: int)
    requires
        0 <= i < a.len(),
    ensures
        with_key(a, a[i].0@).contains(a[i]),
{
    a.lemma_filter_contains(key_is(a[i].0@), i);
}

/// Two lists sorted by key that hold, key by key, the same pairs in the same order are
/// the same list; so a stable sort has exactly one outcome.
pub proof fn lemma_sorted_by_key_unique<V>(a: Seq<(String, V)>, b: Seq<(String, V)>)
    requires
        pairs_sorted_by_key(a),
        pairs_sorted_by_key(b),
        forall|k: Seq<char>| #[trigger] with_key(a, k) == with_key(b, k),
    ensures
        a == b,
    decreases a.len(),
{
    broadcast use vstd::utf8::encode_utf8_decode_utf8;
    if a.len() == 0 || b.len() == 0 {
        if b.len() > 0 {
            lemma_with_key_nonempty(b, 0);
            assert(with_key(a, b[0].0@) == with_key(b, b[0].0@));
            reveal(Seq::filter);
            assert(with_key(a, b[0].0@).len() == 0);
        }
        if a.len() > 0 {
            lemma_with_key_nonempty(a, 0);
            assert(with_key(a, a[0].0@) == with_key(b, a[0].0@));
            reveal(Seq::filter);
            assert(with_key(b, a[0].0@).len() == 0);
        }
        assert(a =~= b);
    } else {
        let ka = a[0].0@;
        let kb = b[0].0@;
        lemma_with_key_nonempty(a, 0);
        lemma_with_key_nonempty(b, 0);
        assert(with_key(a, ka) == with_key(b, ka));
        assert(with_key(a, kb) == with_key(b, kb));
        b.lemma_filter_contains_rev(key_is(ka), a[0]);
        a.lemma_filter_contains_rev(key_is(kb), b[0]);
        let j = choose|j: int| 0 <= j < b.len() && b[j] == a[0];
        let i = choose|i: int| 0 <= i < a.len() && a[i] == b[0];
        assert(lex_le(key_bytes(kb), key_bytes(ka))) by {
            if j > 0 {
                assert(lex_le(key_bytes(b[0].0@), key_bytes(b[j].0@)));
            }
        }
        assert(lex_le(key_bytes(ka), key_bytes(kb))) by {
            if i > 0 {
                assert(lex_le(key_bytes(a[0].0@), key_bytes(a[i].0@)));
            }
        }
        lemma_lex_le_antisymmetric(key_bytes(ka), key_bytes(kb));
        assert(vstd::utf8::decode_utf8(key_bytes(ka)) == ka);
        assert(vstd::utf8::decode_utf8(key_bytes(kb)) == kb);
        assert(ka == kb);
        lemma_with_key_first(a, ka);
        lemma_with_key_first(b, ka);
        assert(with_key(a, ka)[0] == a[0]);
        assert(with_key(b, ka)[0] == b[0]);
        let ta = a.drop_first();
        let tb = b.drop_first();
        assert forall|k: Seq<char>| #[trigger] with_key(ta, k) == with_key(tb, k) by {
            lemma_with_key_first(a, k);
            lemma_with_key_first(b, k);
            if k == ka {
                assert(with_key(ta, k) =~= with_key(a, k).drop_first());
                assert(with_key(tb, k) =~= with_key(b, k).drop_first());
            } else {
                assert(with_key(ta, k) =~= with_key(a, k));
                assert(with_key(tb, k) =~= with_key(b, k));
            }
        }
        assert(pairs_sorted_by_key(ta)) by {
            assert forall|x: int, y: int| 0 <= x < y < ta.len() implies lex_le(
                key_bytes((#[trigger] ta[x]).0@),
                key_bytes((#[trigger] ta[y]).0@),
            ) by {
                assert(ta[x] == a[x + 1] && ta[y] == a[y + 1]);
            }
        }
        assert(pairs_sorted_by_key(tb)) by {
            assert forall|x: int, y: int| 0 <= x < y < tb.len() implies lex_le(
                key_bytes((#[trigger] tb[x]).0@),
                key_bytes((#[trigger] tb[y]).0@),
            ) by {
                assert(tb[x] == b[x + 1] && tb[y] == b[y + 1]);
            }
        }
        lemma_sorted_by_key_unique(ta, tb);
        assert(a =~= seq![a[0]] + ta);
        assert(b =~= seq![b[0]] + tb);
    }
}

/// Any two byte strings are ordered one way or the other.
pub proof fn lemma_lex_total(a: Seq<u8>, b: Seq<u8>)
    ensures
        lex_le(a, b) || lex_le(b, a),
    decreases a.len(),
{
    if a.len() == 0 {
        if b.len() == 0 {
            assert(a =~= b);
        } else {
            assert(lex_lt_at(a, b, 0));
        }
    } else if b.len() == 0 {
        assert(lex_lt_at(b, a, 0));
    } else if a[0] != b[0] {
        if a[0] < b[0] {
            assert(lex_lt_at(a, b, 0));
        } else {
            assert(lex_lt_at(b, a, 0));
        }
    } else {
        let a1 = a.drop_first();
        let b1 = b.drop_first();
        lemma_lex_total(a1, b1);
        if a1 == b1 {
            assert(a =~= b) by {
                assert(a =~= seq![a[0]] + a1);
                assert(b =~= seq![b[0]] + b1);
            }
        } else if lex_lt(a1, b1) {
            let k = choose|k: int| lex_lt_at(a1, b1, k);
            assert forall|i: int| 0 <= i < k + 1 implies a[i] == b[i] by {
                if i > 0 {
                    assert(a[i] == a1[i - 1] && b[i] == b1[i - 1]);
                }
            }
            assert(lex_lt_at(a, b, k + 1));
        } else {
            let k = choose|k: int| lex_lt_at(b1, a1, k);
            assert forall|i: int| 0 <= i < k + 1 implies b[i] == a[i] by {
                if i > 0 {
                    assert(a[i] == a1[i - 1] && b[i] == b1[i - 1]);
                }
            }
            assert(lex_lt_at(b, a, k + 1));
        }
    }
}

/// The byte order of addresses, as a relation.
pub open spec fn address_order() -> spec_fn(Address, Address) -> bool {
    |a: Address, b: Address| address_le(a, b)
}

/// The byte order of addresses is a total order.
pub proof fn lemma_address_order_total()
    ensures
        vstd::relations::total_ordering(address_order()),
{
    broadcast use vstd::array::axiom_array_ext_equal;
    assert forall|x: Address| #[trigger] address_order()(x, x) by {}
    assert forall|x: Address, y: Address| #[trigger] address_order()(x, y) && #[trigger] address_order()(y, x)
        implies x == y by {
        lemma_lex_le_antisymmetric(x.0@, y.0@);
        assert(x.0 =~= y.0);
    }
    assert forall|x: Address, y: Address, z: Address| #[trigger] address_order()(x, y)
        && #[trigger] address_order()(y, z) implies address_order()(x, z) by {
        lemma_lex_le_trans(x.0@, y.0@, z.0@);
    }
    assert forall|x: Address, y: Address| #[trigger] address_order()(x, y) || #[trigger] address_order()(y, x) by {
        lemma_lex_total(x.0@, y.0@);
    }
}

/// Two ascending lists of the same addresses are the same list.
pub proof fn lemma_addresses_sorted_unique(a: Seq<Address>, b: Seq<Address>)
    requires
        addresses_sorted(a),
        addresses_sorted(b),
        a.to_multiset() == b.to_multiset(),
    ensures
        a == b,
{
    lemma_address_order_total();
    assert(vstd::relations::sorted_by(a, address_order()));
    assert(vstd::relations::sorted_by(b, address_order()));
    vstd::seq_lib::lemma_sorted_unique(a, b, address_order());
}

} // verus!
