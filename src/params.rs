//! Query parameters as an ordered mapping from names to values: each name
//! at most once, sorted by name as strings order (character by character,
//! by code point).
use vstd::prelude::*;

use crate::urls::pairs_view;

verus! {

/// `a` comes before `b`.
pub open spec fn name_less(a: Seq<char>, b: Seq<char>) -> bool
    decreases a.len(),
{
    if a.len() == 0 {
        b.len() > 0
    } else if b.len() == 0 {
        false
    } else if a[0] != b[0] {
        (a[0] as int) < (b[0] as int)
    } else {
        name_less(a.drop_first(), b.drop_first())
    }
}

proof fn lemma_less_irreflexive(a: Seq<char>)
    ensures
        !name_less(a, a),
    decreases a.len(),
{
    if a.len() > 0 {
        lemma_less_irreflexive(a.drop_first());
    }
}

proof fn lemma_less_total(a: Seq<char>, b: Seq<char>)
    ensures
        a == b || name_less(a, b) || name_less(b, a),
    decreases a.len(),
{
    if a.len() > 0 && b.len() > 0 && a[0] == b[0] {
        lemma_less_total(a.drop_first(), b.drop_first());
        if a.drop_first() == b.drop_first() {
            assert(a =~= seq![a[0]] + a.drop_first());
            assert(b =~= seq![b[0]] + b.drop_first());
        }
    } else if a.len() == 0 && b.len() == 0 {
        assert(a =~= b);
    } else if a.len() > 0 && b.len() > 0 {
        assert((a[0] as int) != (b[0] as int));
    }
}

proof fn lemma_less_transitive(a: Seq<char>, b: Seq<char>, c: Seq<char>)
    requires
        name_less(a, b),
        name_less(b, c),
    ensures
        name_less(a, c),
    decreases a.len(),
{
    if a.len() > 0 && a[0] == b[0] && b[0] == c[0] {
        lemma_less_transitive(a.drop_first(), b.drop_first(), c.drop_first());
    }
}

proof fn lemma_less_asymmetric(a: Seq<char>, b: Seq<char>)
    requires
        name_less(a, b),
    ensures
        !name_less(b, a),
        a != b,
{
    lemma_less_irreflexive(a);
    if name_less(b, a) {
        lemma_less_transitive(a, b, a);
    }
}

/// Whether `a` comes before `b`.
pub fn name_lt(a: &str, b: &str) -> (r: bool)
    ensures
        r == name_less(a@, b@),
{
    let la = a.unicode_len();
    let lb = b.unicode_len();
    let mut i: usize = 0;
    assert(a@.skip(0) =~= a@);
    assert(b@.skip(0) =~= b@);
    while i < la && i < lb
        invariant
            la == a@.len(),
            lb == b@.len(),
            i <= la,
            i <= lb,
            name_less(a@, b@) == name_less(a@.skip(i as int), b@.skip(i as int)),
        decreases la - i,
    {
        let ca = a.get_char(i);
        let cb = b.get_char(i);
        assert(a@.skip(i as int)[0] == ca);
        assert(b@.skip(i as int)[0] == cb);
        if ca != cb {
            return (ca as u32) < (cb as u32);
        }
        assert(a@.skip(i as int).drop_first() =~= a@.skip(i + 1));
        assert(b@.skip(i as int).drop_first() =~= b@.skip(i + 1));
        i = i + 1;
    }
    i == la && i < lb
}

/// The pairs of the mapping `q` with the value of `k` set to `v`: in place
/// where `k` is there, else where its name sorts.
pub open spec fn set_param(q: Seq<(Seq<char>, Seq<char>)>, k: Seq<char>, v: Seq<char>) -> Seq<
    (Seq<char>, Seq<char>),
>
    decreases q.len(),
{
    if q.len() == 0 {
        seq![(k, v)]
    } else if q[0].0 == k {
        q.update(0, (k, v))
    } else if name_less(k, q[0].0) {
        seq![(k, v)] + q
    } else {
        seq![q[0]] + set_param(q.drop_first(), k, v)
    }
}

/// The mapping that a list of pairs makes, where a later value of a name
/// replaces an earlier one.
pub open spec fn as_mapping(q: Seq<(Seq<char>, Seq<char>)>) -> Seq<(Seq<char>, Seq<char>)>
    decreases q.len(),
{
    if q.len() == 0 {
        q
    } else {
        set_param(as_mapping(q.drop_last()), q.last().0, q.last().1)
    }
}

/// The names are strictly increasing, so none occurs twice.
pub open spec fn sorted_names(q: Seq<(Seq<char>, Seq<char>)>) -> bool {
    forall|i: int, j: int| 0 <= i < j < q.len() ==> name_less((#[trigger] q[i]).0, (#[trigger] q[j]).0)
}

proof fn lemma_set_param_skips(q: Seq<(Seq<char>, Seq<char>)>, i: int, k: Seq<char>, v: Seq<char>)
    requires
        0 <= i <= q.len(),
        forall|j: int| 0 <= j < i ==> name_less((#[trigger] q[j]).0, k),
    ensures
        set_param(q, k, v) == q.take(i) + set_param(q.skip(i), k, v),
    decreases i,
{
    if i == 0 {
        assert(q.skip(0) =~= q);
        assert(q.take(0) + set_param(q, k, v) =~= set_param(q, k, v));
    } else {
        let t = q.drop_first();
        lemma_less_asymmetric(q[0].0, k);
        assert forall|j: int| 0 <= j < i - 1 implies name_less((#[trigger] t[j]).0, k) by {
            assert(t[j] == q[j + 1]);
        }
        lemma_set_param_skips(t, i - 1, k, v);
        assert(t.skip(i - 1) =~= q.skip(i));
        assert(seq![q[0]] + t.take(i - 1) =~= q.take(i));
        assert(seq![q[0]] + (t.take(i - 1) + set_param(q.skip(i), k, v)) =~= q.take(i) + set_param(
            q.skip(i),
            k,
            v,
        ));
    }
}

/// Sets the parameter `name` of the mapping `params` to `value`.
pub fn set_pair(params: &mut Vec<(String, String)>, name: String, value: String)
    requires
        sorted_names(pairs_view(old(params)@)),
    ensures
        sorted_names(pairs_view(final(params)@)),
        pairs_view(final(params)@) == set_param(pairs_view(old(params)@), name@, value@),
{
    let ghost q = pairs_view(params@);
    let ghost k = name@;
    let ghost v = value@;
    let mut i: usize = 0;
    while i < params.len() && name_lt(params[i].0.as_str(), name.as_str())
        invariant
            0 <= i <= params@.len(),
            pairs_view(params@) == q,
            pairs_view(old(params)@) == q,
            sorted_names(q),
            k == name@,
            v == value@,
            forall|j: int| 0 <= j < i ==> name_less((#[trigger] q[j]).0, k),
        decreases params@.len() - i,
    {
        i = i + 1;
    }
    proof {
        lemma_set_param_skips(q, i as int, k, v);
    }
    if i == params.len() {
        assert(q.skip(i as int) =~= Seq::<(Seq<char>, Seq<char>)>::empty());
        params.push((name, value));
        assert(pairs_view(params@) =~= q.push((k, v)));
        assert(q.take(i as int) =~= q);
        assert(q.take(i as int) + seq![(k, v)] =~= q.push((k, v)));
        return;
    }
    let ghost r = q.skip(i as int);
    assert(r[0] == q[i as int]);
    if params[i].0 == name {
        params.set(i, (name, value));
        assert(pairs_view(params@) =~= q.update(i as int, (k, v)));
        assert(q.take(i as int) + r.update(0, (k, v)) =~= q.update(i as int, (k, v)));
        assert forall|a: int, b: int| 0 <= a < b < pairs_view(params@).len() implies name_less(
            (#[trigger] pairs_view(params@)[a]).0,
            (#[trigger] pairs_view(params@)[b]).0,
        ) by {
            assert(q[a].0 == pairs_view(params@)[a].0);
            assert(q[b].0 == pairs_view(params@)[b].0);
        }
        return;
    }
    proof {
        lemma_less_total(q[i as int].0, k);
    }
    params.insert(i, (name, value));
    let ghost n = q.take(i as int) + seq![(k, v)] + r;
    assert(pairs_view(params@) =~= n);
    assert(seq![(k, v)] + r =~= set_param(r, k, v));
    assert(q.take(i as int) + (seq![(k, v)] + r) =~= n);
    assert forall|a: int, b: int| 0 <= a < b < n.len() implies name_less(
        (#[trigger] n[a]).0,
        (#[trigger] n[b]).0,
    ) by {
        if b < i {
            assert(n[a] == q[a] && n[b] == q[b]);
        } else if b == i {
            assert(n[a] == q[a]);
        } else if a < i {
            assert(n[a] == q[a] && n[b] == q[b - 1]);
        } else if a == i {
            assert(n[b] == q[b - 1]);
            if b - 1 > i {
                lemma_less_transitive(k, q[i as int].0, q[b - 1].0);
            }
        } else {
            assert(n[a] == q[a - 1] && n[b] == q[b - 1]);
        }
    }
}

/// The mapping that `pairs` makes, later values replacing earlier ones.
pub fn to_mapping(pairs: &Vec<(String, String)>) -> (r: Vec<(String, String)>)
    ensures
        sorted_names(pairs_view(r@)),
        pairs_view(r@) == as_mapping(pairs_view(pairs@)),
{
    let ghost q = pairs_view(pairs@);
    let mut r: Vec<(String, String)> = Vec::new();
    let mut i: usize = 0;
    assert(pairs_view(r@) =~= as_mapping(q.take(0)));
    while i < pairs.len()
        invariant
            0 <= i <= pairs@.len(),
            q == pairs_view(pairs@),
            sorted_names(pairs_view(r@)),
            pairs_view(r@) == as_mapping(q.take(i as int)),
        decreases pairs@.len() - i,
    {
        assert(q.take(i + 1).drop_last() =~= q.take(i as int));
        let (k, v) = &pairs[i];
        set_pair(&mut r, k.clone(), v.clone());
        i = i + 1;
    }
    assert(q.take(pairs@.len() as int) =~= q);
    r
}

} // verus!
