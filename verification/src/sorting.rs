//! Stable ordering by integer keys.
use vstd::prelude::*;

verus! {

/// A sort key: two integers, compared one after the other.
pub type Key = (i64, i64);

/// Whether `a` comes strictly before `b`.
pub open spec fn key_less(a: Key, b: Key) -> bool {
    a.0 < b.0 || (a.0 == b.0 && a.1 < b.1)
}

/// Whether `a` comes strictly before `b`.
pub fn less(a: &Key, b: &Key) -> (r: bool)
    ensures
        r == key_less(*a, *b),
{
    a.0 < b.0 || (a.0 == b.0 && a.1 < b.1)
}

/// How many entries of `order` stay in front of a key: those up to and with the
/// last one that it does not precede.
pub open spec fn place(keys: Seq<Key>, order: Seq<int>, key: Key) -> nat
    decreases order.len(),
{
    if order.len() == 0 {
        0
    } else if key_less(key, keys[order.last()]) {
        place(keys, order.drop_last(), key)
    } else {
        order.len()
    }
}

/// The positions of `keys` in ascending order of key, equal keys in the order in
/// which they stand.
pub open spec fn ranking(keys: Seq<Key>) -> Seq<int>
    decreases keys.len(),
{
    if keys.len() == 0 {
        Seq::empty()
    } else {
        let init = ranking(keys.drop_last());
        init.insert(place(keys, init, keys.last()) as int, keys.len() - 1)
    }
}

/// Whether `order` lists each of the first `n` positions once, by ascending key
/// and, among equal keys, by ascending position.
pub open spec fn is_stable_order(keys: Seq<Key>, order: Seq<int>, n: int) -> bool {
    &&& order.len() == n
    &&& forall|i: int| 0 <= i < n ==> 0 <= #[trigger] order[i] < n
    &&& forall|i: int, j: int|
        0 <= i < j < n ==> {
            ||| key_less(keys[#[trigger] order[i]], keys[#[trigger] order[j]])
            ||| keys[order[i]] == keys[order[j]] && order[i] < order[j]
        }
}

proof fn lemma_place_bound(keys: Seq<Key>, order: Seq<int>, key: Key)
    ensures
        place(keys, order, key) <= order.len(),
        forall|i: int|
            place(keys, order, key) <= i < order.len() ==> key_less(
                key,
                keys[#[trigger] order[i]],
            ),
        place(keys, order, key) > 0 ==> !key_less(
            key,
            keys[order[place(keys, order, key) - 1]],
        ),
    decreases order.len(),
{
    if order.len() > 0 && key_less(key, keys[order.last()]) {
        lemma_place_bound(keys, order.drop_last(), key);
        assert forall|i: int| place(keys, order, key) <= i < order.len() implies key_less(
            key,
            keys[#[trigger] order[i]],
        ) by {
            if i < order.len() - 1 {
                assert(order.drop_last()[i] == order[i]);
            }
        }
    }
}

proof fn lemma_place_ext(a: Seq<Key>, b: Seq<Key>, order: Seq<int>, key: Key)
    requires
        forall|i: int| 0 <= i < order.len() ==> a[#[trigger] order[i]] == b[order[i]],
    ensures
        place(a, order, key) == place(b, order, key),
    decreases order.len(),
{
    if order.len() > 0 {
        assert(a[order[order.len() - 1]] == b[order[order.len() - 1]]);
        assert forall|i: int| 0 <= i < order.drop_last().len() implies a[#[trigger] order.drop_last()[i]]
            == b[order.drop_last()[i]] by {
            assert(order.drop_last()[i] == order[i]);
        }
        lemma_place_ext(a, b, order.drop_last(), key);
    }
}

/// A ranking lists every position once, in ascending order of key, and never
/// swaps two positions with equal keys.
pub proof fn ranking_is_stable(keys: Seq<Key>)
    ensures
        is_stable_order(keys, ranking(keys), keys.len() as int),
    decreases keys.len(),
{
    if keys.len() > 0 {
        let short = keys.drop_last();
        let init = ranking(short);
        let n = short.len() as int;
        ranking_is_stable(short);
        let at = place(keys, init, keys.last()) as int;
        lemma_place_bound(keys, init, keys.last());
        let full = init.insert(at, n);
        assert forall|i: int, j: int| 0 <= i < j < keys.len() implies {
            ||| key_less(keys[#[trigger] full[i]], keys[#[trigger] full[j]])
            ||| keys[full[i]] == keys[full[j]] && full[i] < full[j]
        } by {
            let pi = if i < at { i } else { i - 1 };
            let pj = if j < at { j } else { j - 1 };
            if i == at {
                assert(full[j] == init[pj]);
                assert(key_less(keys.last(), keys[init[pj]]));
            } else if j == at {
                assert(full[i] == init[i]);
                assert(short[init[i]] == keys[init[i]]);
                assert(short[init[at - 1]] == keys[init[at - 1]]);
                if i < at - 1 {
                    assert(key_less(short[init[i]], short[init[at - 1]]) || short[init[i]]
                        == short[init[at - 1]]);
                }
            } else {
                assert(full[i] == init[pi]);
                assert(full[j] == init[pj]);
                assert(short[init[pi]] == keys[init[pi]]);
                assert(short[init[pj]] == keys[init[pj]]);
            }
        }
    }
}

/// A ranking leaves no position out.
pub proof fn ranking_reaches(keys: Seq<Key>, i: int)
    requires
        0 <= i < keys.len(),
    ensures
        exists|k: int| 0 <= k < ranking(keys).len() && ranking(keys)[k] == i,
    decreases keys.len(),
{
    let short = keys.drop_last();
    let init = ranking(short);
    let at = place(keys, init, keys.last()) as int;
    lemma_place_bound(keys, init, keys.last());
    let full = ranking(keys);
    if i == keys.len() - 1 {
        assert(full[at] == i);
    } else {
        ranking_reaches(short, i);
        let k = choose|k: int| 0 <= k < init.len() && init[k] == i;
        if k < at {
            assert(full[k] == i);
        } else {
            assert(full[k + 1] == i);
        }
    }
}

/// The positions of `keys` in ascending order of key, ties in place.
pub fn rank(keys: &Vec<Key>) -> (r: Vec<usize>)
    ensures
        r.len() == keys.len(),
        forall|i: int| 0 <= i < r.len() ==> r@[i] == #[trigger] ranking(keys@)[i],
        ranking(keys@).len() == keys.len(),
        forall|i: int| 0 <= i < r.len() ==> #[trigger] r@[i] < keys.len(),
{
    let mut order: Vec<usize> = Vec::new();
    let mut n: usize = 0;
    while n < keys.len()
        invariant
            n <= keys.len(),
            order.len() == n,
            ranking(keys@.take(n as int)).len() == n,
            forall|i: int|
                0 <= i < n ==> order@[i] == #[trigger] ranking(keys@.take(n as int))[i],
            forall|i: int| 0 <= i < n ==> #[trigger] order@[i] < n,
        decreases keys.len() - n,
    {
        let ghost before = ranking(keys@.take(n as int));
        let ghost key = keys@[n as int];
        let mut at: usize = n;
        assert(before.take(n as int) =~= before);
        while at > 0 && less(&keys[n], &keys[order[at - 1]])
            invariant
                at <= n < keys.len(),
                order.len() == n,
                before.len() == n,
                key == keys@[n as int],
                forall|i: int| 0 <= i < n ==> order@[i] == #[trigger] before[i],
                forall|i: int| 0 <= i < n ==> #[trigger] order@[i] < n,
                place(keys@, before, key) == place(keys@, before.take(at as int), key),
            decreases at,
        {
            assert(before.take(at as int).drop_last() =~= before.take(at - 1));
            assert(before.take(at as int).last() == before[at - 1]);
            at = at - 1;
        }
        proof {
            let longer = keys@.take(n + 1);
            assert(longer.drop_last() =~= keys@.take(n as int));
            if at > 0 {
                assert(before.take(at as int).last() == before[at - 1]);
            }
            assert(place(keys@, before, key) == at);
            lemma_place_ext(keys@, longer, before, key);
            assert(longer.last() == key);
        }
        order.insert(at, n);
        n = n + 1;
        proof {
            let now = ranking(keys@.take(n as int));
            assert(now == before.insert(at as int, n - 1));
            assert forall|i: int| 0 <= i < n implies order@[i] == #[trigger] now[i] by {
                if i < at {
                    assert(order@[i] == before[i]);
                } else if i > at {
                    assert(order@[i] == before[i - 1]);
                }
            }
        }
    }
    assert(keys@.take(n as int) =~= keys@);
    order
}

/// The positions at which `flags` is true, in order.
pub open spec fn chosen(flags: Seq<bool>) -> Seq<int>
    decreases flags.len(),
{
    if flags.len() == 0 {
        Seq::empty()
    } else {
        let init = chosen(flags.drop_last());
        if flags.last() {
            init.push(flags.len() - 1)
        } else {
            init
        }
    }
}

/// Exactly the flagged positions are chosen, each once and in ascending order.
pub proof fn chosen_is_exact(flags: Seq<bool>)
    ensures
        forall|k: int|
            0 <= k < chosen(flags).len() ==> 0 <= #[trigger] chosen(flags)[k] < flags.len()
                && flags[chosen(flags)[k]],
        forall|i: int|
            0 <= i < flags.len() && #[trigger] flags[i] ==> chosen(flags).contains(i),
        forall|j: int, k: int|
            0 <= j < k < chosen(flags).len() ==> #[trigger] chosen(flags)[j] < #[trigger] chosen(
                flags,
            )[k],
        chosen(flags).len() <= flags.len(),
    decreases flags.len(),
{
    if flags.len() > 0 {
        let short = flags.drop_last();
        chosen_is_exact(short);
        let init = chosen(short);
        let now = chosen(flags);
        assert forall|i: int| 0 <= i < flags.len() && #[trigger] flags[i] implies now.contains(
            i,
        ) by {
            if i < short.len() {
                assert(short[i]);
                let k = choose|k: int| 0 <= k < init.len() && init[k] == i;
                assert(now[k] == i);
            } else {
                assert(now[now.len() - 1] == i);
            }
        }
    }
}

/// The positions at which `flags` is true, in order.
pub fn positions(flags: &Vec<bool>) -> (r: Vec<usize>)
    ensures
        r@.len() == chosen(flags@).len(),
        r@.len() <= flags@.len(),
        forall|k: int| 0 <= k < r@.len() ==> r@[k] == #[trigger] chosen(flags@)[k],
        forall|k: int| 0 <= k < r@.len() ==> #[trigger] r@[k] < flags@.len(),
{
    let mut out: Vec<usize> = Vec::new();
    let mut i: usize = 0;
    while i < flags.len()
        invariant
            i <= flags.len(),
            out@.len() == chosen(flags@.take(i as int)).len(),
            out@.len() <= i,
            forall|k: int|
                0 <= k < out@.len() ==> out@[k] == #[trigger] chosen(flags@.take(i as int))[k],
            forall|k: int| 0 <= k < out@.len() ==> #[trigger] out@[k] < i,
        decreases flags.len() - i,
    {
        let ghost before = chosen(flags@.take(i as int));
        assert(flags@.take(i + 1).drop_last() =~= flags@.take(i as int));
        if flags[i] {
            out.push(i);
        }
        i = i + 1;
        proof {
            let now = chosen(flags@.take(i as int));
            assert forall|k: int| 0 <= k < out@.len() implies out@[k] == #[trigger] now[k] by {
                if k < before.len() {
                    assert(out@[k] == before[k]);
                }
            }
        }
    }
    assert(flags@.take(i as int) =~= flags@);
    out
}

/// A number whose ascending order is the descending order of `x`.
pub open spec fn descending(x: i64) -> i64 {
    (-1 - x) as i64
}

/// A number whose ascending order is the descending order of `x`.
pub fn reversed(x: i64) -> (r: i64)
    ensures
        r == descending(x),
        r == -1 - x,
{
    -1 - x
}

/// The positions of a list that are flagged, by ascending key, ties in place.
pub open spec fn selection(flags: Seq<bool>, keys: Seq<Key>) -> Seq<int> {
    let at = chosen(flags);
    let picked = Seq::new(at.len(), |k: int| keys[at[k]]);
    Seq::new(at.len(), |k: int| at[ranking(picked)[k]])
}

/// The positions of a list that are flagged, by ascending key, ties in place.
pub fn select(flags: &Vec<bool>, keys: &Vec<Key>) -> (r: Vec<usize>)
    requires
        flags@.len() == keys@.len(),
    ensures
        r@.len() == selection(flags@, keys@).len(),
        r@.len() <= flags@.len(),
        forall|k: int| 0 <= k < r@.len() ==> r@[k] == #[trigger] selection(flags@, keys@)[k],
        forall|k: int| 0 <= k < r@.len() ==> #[trigger] r@[k] < flags@.len(),
{
    let at = positions(flags);
    let mut picked: Vec<Key> = Vec::new();
    let mut i: usize = 0;
    while i < at.len()
        invariant
            i <= at.len(),
            flags@.len() == keys@.len(),
            picked@.len() == i,
            forall|k: int| 0 <= k < at@.len() ==> #[trigger] at@[k] < flags@.len(),
            forall|k: int| 0 <= k < i ==> #[trigger] picked@[k] == keys@[at@[k] as int],
        decreases at.len() - i,
    {
        picked.push(keys[at[i]]);
        i = i + 1;
    }
    let order = rank(&picked);
    proof {
        let sat = chosen(flags@);
        let spicked = Seq::new(sat.len(), |k: int| keys@[sat[k]]);
        assert(picked@ =~= spicked) by {
            assert forall|k: int| 0 <= k < picked@.len() implies picked@[k] == spicked[k] by {
                assert(at@[k] == sat[k]);
            }
        }
    }
    let mut out: Vec<usize> = Vec::new();
    let mut j: usize = 0;
    while j < order.len()
        invariant
            j <= order.len(),
            order.len() == at.len(),
            out@.len() == j,
            forall|k: int| 0 <= k < order@.len() ==> #[trigger] order@[k] < at@.len(),
            forall|k: int| 0 <= k < j ==> #[trigger] out@[k] == at@[order@[k] as int],
        decreases order.len() - j,
    {
        out.push(at[order[j]]);
        j = j + 1;
    }
    proof {
        let s = selection(flags@, keys@);
        assert forall|k: int| 0 <= k < out@.len() implies out@[k] == #[trigger] s[k] by {
            assert(out@[k] == at@[order@[k] as int]);
            assert(order@[k] == ranking(picked@)[k]);
            assert(at@[order@[k] as int] == chosen(flags@)[order@[k] as int]);
        }
        assert forall|k: int| 0 <= k < out@.len() implies #[trigger] out@[k] < flags@.len() by {
            assert(out@[k] == at@[order@[k] as int]);
        }
    }
    out
}

/// A selection lists exactly the flagged positions, each once, in ascending order of key,
/// and positions with equal keys in their own order.
pub proof fn selection_is_exact(flags: Seq<bool>, keys: Seq<Key>)
    requires
        flags.len() == keys.len(),
    ensures
        forall|i: int|
            #[trigger] selection(flags, keys).contains(i) <==> 0 <= i < flags.len() && flags[i],
        selection(flags, keys).no_duplicates(),
        selection(flags, keys).len() <= flags.len(),
        forall|k: int|
            0 <= k < selection(flags, keys).len() ==> 0 <= #[trigger] selection(flags, keys)[k]
                < flags.len(),
        forall|j: int, k: int|
            0 <= j < k < selection(flags, keys).len() ==> {
                let a = #[trigger] selection(flags, keys)[j];
                let b = #[trigger] selection(flags, keys)[k];
                key_less(keys[a], keys[b]) || keys[a] == keys[b] && a < b
            },
{
    let at = chosen(flags);
    let picked = Seq::new(at.len(), |k: int| keys[at[k]]);
    let order = selection(flags, keys);
    let ranks = ranking(picked);
    chosen_is_exact(flags);
    ranking_is_stable(picked);
    assert(order.len() == at.len());
    assert forall|k: int| 0 <= k < order.len() implies 0 <= #[trigger] order[k] < flags.len()
        && flags[order[k]] && order[k] == at[ranks[k]] && keys[order[k]] == picked[ranks[k]] by {
        assert(order[k] == at[ranks[k]]);
    }
    assert forall|i: int| #[trigger] order.contains(i) <==> 0 <= i < flags.len() && flags[i] by {
        if 0 <= i < flags.len() && flags[i] {
            assert(at.contains(i));
            let a = choose|a: int| 0 <= a < at.len() && at[a] == i;
            ranking_reaches(picked, a);
            let k = choose|k: int| 0 <= k < ranks.len() && ranks[k] == a;
            assert(order[k] == i);
        }
    }
    assert forall|j: int, k: int| 0 <= j < k < order.len() implies {
        let a = #[trigger] order[j];
        let b = #[trigger] order[k];
        key_less(keys[a], keys[b]) || keys[a] == keys[b] && a < b
    } by {
        assert(order[j] == at[ranks[j]] && order[k] == at[ranks[k]]);
        assert(picked[ranks[j]] == keys[order[j]] && picked[ranks[k]] == keys[order[k]]);
    }
    assert forall|j: int, k: int| 0 <= j < order.len() && 0 <= k < order.len() && j != k implies
        order[j] != order[k] by {
        if j < k {
            assert(key_less(keys[order[j]], keys[order[k]]) || order[j] < order[k]);
        } else {
            assert(key_less(keys[order[k]], keys[order[j]]) || order[k] < order[j]);
        }
    }
}

/// Ranking puts every position once, by the first part of its key and then by the second,
/// and equal keys in the order in which they stand.
pub proof fn ranks_go_by_the_keys(keys: &Vec<Key>, r: Vec<usize>)
    requires
        call_ensures(rank, (keys,), r),
    ensures
        r@.len() == keys@.len(),
        forall|i: int, j: int|
            0 <= i < j < r@.len() ==> {
                let a = keys@[(#[trigger] r@[i]) as int];
                let b = keys@[(#[trigger] r@[j]) as int];
                a.0 < b.0 || (a.0 == b.0 && a.1 < b.1) || (a == b && r@[i] < r@[j])
            },
{
    ranking_is_stable(keys@);
    let order = ranking(keys@);
    assert forall|i: int, j: int| 0 <= i < j < r@.len() implies {
        let a = keys@[(#[trigger] r@[i]) as int];
        let b = keys@[(#[trigger] r@[j]) as int];
        a.0 < b.0 || (a.0 == b.0 && a.1 < b.1) || (a == b && r@[i] < r@[j])
    } by {
        assert(r@[i] == order[i] && r@[j] == order[j]);
    }
}

/// The positions of flags are those that are set, each once and in order.
pub proof fn positions_are_the_flagged(flags: &Vec<bool>, r: Vec<usize>, i: int)
    requires
        call_ensures(positions, (flags,), r),
    ensures
        0 <= i < flags@.len() ==> (flags@[i] <==> exists|k: int|
            0 <= k < r@.len() && #[trigger] r@[k] == i),
        forall|j: int, k: int| 0 <= j < k < r@.len() ==> #[trigger] r@[j] < #[trigger] r@[k],
{
    chosen_is_exact(flags@);
    let at = chosen(flags@);
    assert forall|j: int, k: int| 0 <= j < k < r@.len() implies #[trigger] r@[j]
        < #[trigger] r@[k] by {
        assert(r@[j] == at[j] && r@[k] == at[k]);
    }
    if 0 <= i < flags@.len() {
        if flags@[i] {
            assert(at.contains(i));
            let k = choose|k: int| 0 <= k < at.len() && at[k] == i;
            assert(r@[k] == at[k]);
        }
        if exists|k: int| 0 <= k < r@.len() && #[trigger] r@[k] == i {
            let k = choose|k: int| 0 <= k < r@.len() && #[trigger] r@[k] == i;
            assert(r@[k] == at[k]);
        }
    }
}

} // verus!
