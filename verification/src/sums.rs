use vstd::prelude::*;

verus! {

/// The sum of `f` over the finite set `s` (0 for an infinite set).
pub open spec fn sum_over<K>(s: Set<K>, f: spec_fn(K) -> int) -> int
    decreases s.len(),
{
    if s.finite() && s.len() > 0 {
        let k = s.choose();
        f(k) + sum_over(s.remove(k), f)
    } else {
        0
    }
}

/// Any element of a finite set can be taken out of its sum first.
pub proof fn lemma_sum_remove<K>(s: Set<K>, f: spec_fn(K) -> int, a: K)
    requires
        s.finite(),
        s.contains(a),
    ensures
        sum_over(s, f) == f(a) + sum_over(s.remove(a), f),
    decreases s.len(),
{
    let c = s.choose();
    if c != a {
        let rest = s.remove(c);
        lemma_sum_remove(rest, f, a);
        assert(rest.remove(a) =~= s.remove(a).remove(c));
        lemma_sum_remove(s.remove(a), f, c);
    }
}

/// Two functions that agree on a finite set have the same sum over it.
pub proof fn lemma_sum_ext<K>(s: Set<K>, f: spec_fn(K) -> int, g: spec_fn(K) -> int)
    requires
        s.finite(),
        forall|k: K| s.contains(k) ==> f(k) == g(k),
    ensures
        sum_over(s, f) == sum_over(s, g),
    decreases s.len(),
{
    if s.len() > 0 {
        let c = s.choose();
        lemma_sum_ext(s.remove(c), f, g);
    }
}

/// A function that is zero on a finite set sums to zero over it.
pub proof fn lemma_sum_zero<K>(s: Set<K>, f: spec_fn(K) -> int)
    requires
        s.finite(),
        forall|k: K| s.contains(k) ==> f(k) == 0,
    ensures
        sum_over(s, f) == 0,
    decreases s.len(),
{
    if s.len() > 0 {
        let c = s.choose();
        lemma_sum_zero(s.remove(c), f);
    }
}

/// A function that is never negative on a finite set sums to at least its
/// value at any element.
pub proof fn lemma_sum_bounds_element<K>(s: Set<K>, f: spec_fn(K) -> int, a: K)
    requires
        s.finite(),
        s.contains(a),
        forall|k: K| s.contains(k) ==> f(k) >= 0,
    ensures
        sum_over(s, f) >= f(a),
{
    lemma_sum_remove(s, f, a);
    lemma_sum_nonneg(s.remove(a), f);
}

/// A function that is never negative on a finite set has a sum that is not negative.
pub proof fn lemma_sum_nonneg<K>(s: Set<K>, f: spec_fn(K) -> int)
    requires
        s.finite(),
        forall|k: K| s.contains(k) ==> f(k) >= 0,
    ensures
        sum_over(s, f) >= 0,
    decreases s.len(),
{
    if s.len() > 0 {
        let c = s.choose();
        lemma_sum_nonneg(s.remove(c), f);
    }
}

/// The sum, over the entries of `m` whose key starts with `id`, of their values.
pub open spec fn keyed_sum(m: Map<(u64, u64), u128>, id: u64) -> int {
    sum_over(m.dom(), keyed_part(m, id))
}

/// The value of `m` at a key that starts with `id`, and zero at any other key.
pub open spec fn keyed_part(m: Map<(u64, u64), u128>, id: u64) -> spec_fn((u64, u64)) -> int {
    |k: (u64, u64)| if k.0 == id { m[k] as int } else { 0 }
}

/// The value of `m` at `k`, zero where `k` is absent.
pub open spec fn value_or_zero(m: Map<(u64, u64), u128>, k: (u64, u64)) -> int {
    if m.contains_key(k) { m[k] as int } else { 0 }
}

/// Writing `v` at key `k` changes the keyed sum of `k.0` by the difference
/// with what was there, and no other keyed sum.
pub proof fn lemma_keyed_sum_insert(m: Map<(u64, u64), u128>, k: (u64, u64), v: u128, id: u64)
    requires
        m.dom().finite(),
    ensures
        keyed_sum(m.insert(k, v), id) == keyed_sum(m, id) + (if k.0 == id {
            v - value_or_zero(m, k)
        } else {
            0
        }),
{
    let m2 = m.insert(k, v);
    let f = keyed_part(m, id);
    let g = keyed_part(m2, id);
    if m.contains_key(k) {
        assert(m2.dom() =~= m.dom());
        lemma_sum_remove(m.dom(), f, k);
        lemma_sum_remove(m.dom(), g, k);
        lemma_sum_ext(m.dom().remove(k), f, g);
    } else {
        assert(m2.dom() =~= m.dom().insert(k));
        lemma_sum_remove(m2.dom(), g, k);
        assert(m2.dom().remove(k) =~= m.dom());
        lemma_sum_ext(m.dom(), f, g);
    }
}

/// A keyed sum bounds each of the values it adds up.
pub proof fn lemma_keyed_sum_bounds(m: Map<(u64, u64), u128>, k: (u64, u64))
    requires
        m.dom().finite(),
    ensures
        keyed_sum(m, k.0) >= value_or_zero(m, k),
        keyed_sum(m, k.0) >= 0,
{
    let f = keyed_part(m, k.0);
    lemma_sum_nonneg(m.dom(), f);
    if m.contains_key(k) {
        lemma_sum_bounds_element(m.dom(), f, k);
    }
}

/// A keyed sum over a map with no key starting with `id` is zero.
pub proof fn lemma_keyed_sum_absent(m: Map<(u64, u64), u128>, id: u64)
    requires
        m.dom().finite(),
        forall|k: (u64, u64)| m.contains_key(k) ==> k.0 != id,
    ensures
        keyed_sum(m, id) == 0,
{
    let f = keyed_part(m, id);
    lemma_sum_zero(m.dom(), f);
}

/// The value of `t` at `id`, zero where `id` is absent.
pub open spec fn total_or_zero(t: Map<u64, u128>, id: u64) -> int {
    if t.contains_key(id) { t[id] as int } else { 0 }
}

/// Where each keyed sum of `m` is the total that `t` records, writing `v` at
/// `k` in `m` and the adjusted total at `k.0` in `t` keeps that so.
pub proof fn lemma_totals_after_insert(
    m: Map<(u64, u64), u128>,
    t: Map<u64, u128>,
    k: (u64, u64),
    v: u128,
    total: u128,
)
    requires
        m.dom().finite(),
        forall|i: u64| #[trigger] keyed_sum(m, i) == total_or_zero(t, i),
        total == total_or_zero(t, k.0) + v - value_or_zero(m, k),
    ensures
        forall|i: u64| #[trigger]
            keyed_sum(m.insert(k, v), i) == total_or_zero(t.insert(k.0, total), i),
{
    assert forall|i: u64| #[trigger]
        keyed_sum(m.insert(k, v), i) == total_or_zero(t.insert(k.0, total), i) by {
        lemma_keyed_sum_insert(m, k, v, i);
        assert(keyed_sum(m, i) == total_or_zero(t, i));
    }
}

/// The sum, over the entries of `m` whose key ends with `who`, of their values.
pub open spec fn account_sum(m: Map<(u64, u64), u128>, who: u64) -> int {
    sum_over(m.dom(), account_part(m, who))
}

/// The value of `m` at a key that ends with `who`, and zero at any other key.
pub open spec fn account_part(m: Map<(u64, u64), u128>, who: u64) -> spec_fn((u64, u64)) -> int {
    |k: (u64, u64)| if k.1 == who { m[k] as int } else { 0 }
}

/// Writing `v` at key `k` changes the account sum of `k.1` by the
/// difference with what was there, and no other account sum.
pub proof fn lemma_account_sum_insert(m: Map<(u64, u64), u128>, k: (u64, u64), v: u128, who: u64)
    requires
        m.dom().finite(),
    ensures
        account_sum(m.insert(k, v), who) == account_sum(m, who) + (if k.1 == who {
            v - value_or_zero(m, k)
        } else {
            0
        }),
{
    let m2 = m.insert(k, v);
    let f = account_part(m, who);
    let g = account_part(m2, who);
    if m.contains_key(k) {
        assert(m2.dom() =~= m.dom());
        lemma_sum_remove(m.dom(), f, k);
        lemma_sum_remove(m.dom(), g, k);
        lemma_sum_ext(m.dom().remove(k), f, g);
    } else {
        assert(m2.dom() =~= m.dom().insert(k));
        lemma_sum_remove(m2.dom(), g, k);
        assert(m2.dom().remove(k) =~= m.dom());
        lemma_sum_ext(m.dom(), f, g);
    }
}

/// An account sum bounds each of the values it adds up.
pub proof fn lemma_account_sum_bounds(m: Map<(u64, u64), u128>, k: (u64, u64))
    requires
        m.dom().finite(),
    ensures
        account_sum(m, k.1) >= value_or_zero(m, k),
        account_sum(m, k.1) >= 0,
{
    let f = account_part(m, k.1);
    lemma_sum_nonneg(m.dom(), f);
    if m.contains_key(k) {
        lemma_sum_bounds_element(m.dom(), f, k);
    }
}

} // verus!
