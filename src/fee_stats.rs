use vstd::prelude::*;

verus! {

/// Fee statistics of one block: percentiles by transaction count
/// (`p_*`, `dist_fee_by_index`) and by consumed compute units (`*_cu`,
/// `dist_fee_by_cu`). Distribution entries are labelled `p0`, `p5`, ...
#[derive(Clone, Debug)]
pub struct PrioFeesStats {
    pub p_min: u64,
    pub p_median: u64,
    pub p_75: u64,
    pub p_90: u64,
    pub p_max: u64,
    pub dist_fee_by_index: Vec<(String, u64)>,
    pub p_median_cu: u64,
    pub p_75_cu: u64,
    pub p_90_cu: u64,
    pub p_95_cu: u64,
    pub dist_fee_by_cu: Vec<(String, u64)>,
}

pub open spec fn digit_char(d: int) -> char {
    if d == 0 { '0' } else if d == 1 { '1' } else if d == 2 { '2' } else if d == 3 { '3' }
    else if d == 4 { '4' } else if d == 5 { '5' } else if d == 6 { '6' } else if d == 7 { '7' }
    else if d == 8 { '8' } else { '9' }
}

/// The decimal digits of `n`, without leading zeros.
pub open spec fn decimal(n: nat) -> Seq<char>
    decreases n,
{
    if n < 10 {
        seq![digit_char(n as int)]
    } else {
        decimal(n / 10) + seq![digit_char((n % 10) as int)]
    }
}

/// The label of the `p`-th percentile: `p` followed by the number.
pub open spec fn percentile_label(p: nat) -> Seq<char> {
    seq!['p'] + decimal(p)
}

/// A labelled distribution seen as plain character sequences.
pub open spec fn labelled(v: Seq<(String, u64)>) -> Seq<(Seq<char>, u64)> {
    v.map_values(|e: (String, u64)| (e.0@, e.1))
}

/// A list of `(prioritization fee, compute units)` pairs is ordered by fee.
pub open spec fn fee_sorted(t: Seq<(u64, u64)>) -> bool {
    forall|i: int, j: int| 0 <= i < j < t.len() ==> #[trigger] t[i].0 <= #[trigger] t[j].0
}

/// An empty block is treated as a block with one zero-fee, zero-unit entry.
pub open spec fn with_placeholder(s: Seq<(u64, u64)>) -> Seq<(u64, u64)> {
    if s.len() == 0 {
        seq![(0u64, 0u64)]
    } else {
        s
    }
}

/// `t` is `s` (or its placeholder, when `s` is empty) ordered by fee.
pub open spec fn sorted_form_of(t: Seq<(u64, u64)>, s: Seq<(u64, u64)>) -> bool {
    &&& fee_sorted(t)
    &&& t.to_multiset() == with_placeholder(s).to_multiset()
    &&& t.len() == with_placeholder(s).len()
}

/// The fee at the `p`-th percentile by transaction count of a non-empty sorted
/// list: the entry at index `len * p / 100`, and the last entry for `p = 100`.
pub open spec fn fee_at_share(t: Seq<(u64, u64)>, p: int) -> u64 {
    if p >= 100 {
        t.last().0
    } else {
        t[t.len() * p / 100].0
    }
}

/// Compute units of the first `k` entries.
pub open spec fn cu_prefix(t: Seq<(u64, u64)>, k: int) -> int
    decreases k,
{
    if k <= 0 || t.len() < k {
        0
    } else {
        cu_prefix(t, k - 1) + t[k - 1].1
    }
}

/// Compute units of the whole list.
pub open spec fn cu_total(t: Seq<(u64, u64)>) -> int {
    cu_prefix(t, t.len() as int)
}

/// The `p`-th part in a hundred of `total` compute units, rounded down.
pub open spec fn cu_threshold(total: int, p: int) -> int {
    total * p / 100
}

/// The fee of the first entry at or after `k` whose running compute-unit sum
/// exceeds `thr`, if there is one.
pub open spec fn crossing_from(t: Seq<(u64, u64)>, thr: int, k: int) -> Option<u64>
    decreases t.len() - k,
{
    if k < 0 || k >= t.len() {
        None
    } else if cu_prefix(t, k + 1) > thr {
        Some(t[k].0)
    } else {
        crossing_from(t, thr, k + 1)
    }
}

/// The fee at the `p`-th percentile by compute units: the fee of the first
/// entry at which the running sum of compute units exceeds `p` percent of the
/// total. None when no entry gets there.
pub open spec fn fee_at_cu_share(t: Seq<(u64, u64)>, p: int) -> Option<u64> {
    crossing_from(t, cu_threshold(cu_total(t), p), 0)
}

pub open spec fn or_zero(o: Option<u64>) -> u64 {
    match o {
        Some(v) => v,
        None => 0,
    }
}

/// The distribution by compute units over the first `j` steps of five
/// percent: one entry for each step that some entry's running sum crosses.
pub open spec fn cu_dist(t: Seq<(u64, u64)>, j: int) -> Seq<(Seq<char>, u64)>
    decreases j,
{
    if j <= 0 {
        seq![]
    } else {
        match fee_at_cu_share(t, 5 * (j - 1)) {
            Some(f) => cu_dist(t, j - 1).push((percentile_label((5 * (j - 1)) as nat), f)),
            None => cu_dist(t, j - 1),
        }
    }
}

/// `r` holds the statistics of the fee-sorted, non-empty list `t`.
pub open spec fn describes(r: PrioFeesStats, t: Seq<(u64, u64)>) -> bool {
    &&& r.p_min == fee_at_share(t, 0)
    &&& r.p_median == fee_at_share(t, 50)
    &&& r.p_75 == fee_at_share(t, 75)
    &&& r.p_90 == fee_at_share(t, 90)
    &&& r.p_max == fee_at_share(t, 100)
    &&& r.dist_fee_by_index@.len() == 21
    &&& forall|k: int|
        0 <= k < 21 ==> #[trigger] labelled(r.dist_fee_by_index@)[k] == (
            percentile_label((5 * k) as nat),
            fee_at_share(t, 5 * k),
        )
    &&& r.p_median_cu == or_zero(fee_at_cu_share(t, 50))
    &&& r.p_75_cu == or_zero(fee_at_cu_share(t, 75))
    &&& r.p_90_cu == or_zero(fee_at_cu_share(t, 90))
    &&& r.p_95_cu == or_zero(fee_at_cu_share(t, 95))
    &&& labelled(r.dist_fee_by_cu@) == cu_dist(t, 21)
}

proof fn lemma_cu_prefix_bounds(t: Seq<(u64, u64)>, k: int)
    requires
        0 <= k <= t.len(),
    ensures
        0 <= cu_prefix(t, k) <= k * 0xffff_ffff_ffff_ffff,
    decreases k,
{
    if k > 0 {
        lemma_cu_prefix_bounds(t, k - 1);
    }
}

/// Orders `v` by fee (stably, by adjacent swaps), keeping its entries.
fn sort_by_fee(v: &mut Vec<(u64, u64)>)
    ensures
        fee_sorted(final(v)@),
        final(v)@.to_multiset() == old(v)@.to_multiset(),
        final(v)@.len() == old(v)@.len(),
{
    broadcast use vstd::seq_lib::group_to_multiset_ensures, vstd::multiset::group_multiset_properties, vstd::multiset::group_multiset_axioms;

    let n = v.len();
    let mut i: usize = 1;
    while i < n
        invariant
            1 <= i,
            i <= n || n == 0,
            v@.len() == n,
            v@.to_multiset() == old(v)@.to_multiset(),
            n == old(v)@.len(),
            forall|a: int, b: int| 0 <= a < b < i && b < n ==> #[trigger] v@[a].0 <= #[trigger] v@[b].0,
        decreases n - i,
    {
        let mut j: usize = i;
        while j > 0 && v[j - 1].0 > v[j].0
            invariant
                0 <= j <= i < n,
                v@.len() == n,
                v@.to_multiset() == old(v)@.to_multiset(),
                forall|a: int, b: int|
                    0 <= a < b <= i && a != j && b != j ==> #[trigger] v@[a].0 <= #[trigger] v@[b].0,
                forall|b: int| j < b <= i ==> v@[j as int].0 <= #[trigger] v@[b].0,
            decreases j,
        {
            let x = v[j];
            let y = v[j - 1];
            let ghost before = v@;
            v.set(j - 1, x);
            v.set(j, y);
            proof {
                let mid = before.update(j - 1, x);
                assert(v@ == mid.update(j as int, y));
                vstd::seq_lib::to_multiset_update(before, j - 1, x);
                vstd::seq_lib::to_multiset_update(mid, j as int, y);
                assert(mid.to_multiset() == before.to_multiset().insert(x).remove(y));
                assert(v@.to_multiset() == mid.to_multiset().insert(y).remove(x));
                assert(before.contains(y));
                vstd::seq_lib::to_multiset_contains(before, y);
                assert(before.to_multiset().count(y) > 0);
                assert(v@.to_multiset() =~= before.to_multiset());
            }
            j = j - 1;
        }
        i = i + 1;
    }
}

/// Relies on the `Display` of `u64` (through `format!`), which writes the
/// decimal digits of the number.
#[verifier::external_body]
fn label_for(p: u64) -> (r: String)
    ensures
        r@ == percentile_label(p as nat),
{
    format!("p{}", p)
}

/// Index `len * p / 100` of a list of `len` entries.
fn share_index(len: usize, p: u64) -> (r: usize)
    requires
        len > 0,
        p < 100,
    ensures
        r as int == len * p / 100,
        r < len,
{
    proof {
        assert((len as int) * (p as int) / 100 < len) by (nonlinear_arith)
            requires
                len > 0,
                p < 100,
        ;
        assert((len as int) * (p as int) <= 0xffff_ffff_ffff_ffff * 100) by (nonlinear_arith)
            requires
                len <= 0xffff_ffff_ffff_ffff,
                p < 100,
        ;
    }
    ((len as u128) * (p as u128) / 100) as usize
}

fn fee_at(t: &Vec<(u64, u64)>, p: u64) -> (r: u64)
    requires
        t@.len() > 0,
        p <= 100,
    ensures
        r == fee_at_share(t@, p as int),
{
    if p == 100 {
        t[t.len() - 1].0
    } else {
        t[share_index(t.len(), p)].0
    }
}

/// `total * p / 100` without overflow.
fn cu_share(total: u128, p: u128) -> (r: u128)
    requires
        p <= 100,
    ensures
        r as int == cu_threshold(total as int, p as int),
{
    let q = total / 100;
    let rem = total % 100;
    proof {
        let (tt, pp, qq, rr) = (total as int, p as int, q as int, rem as int);
        assert(tt == 100 * qq + rr);
        assert(tt * pp == rr * pp + (qq * pp) * 100) by (nonlinear_arith)
            requires
                tt == 100 * qq + rr,
        ;
        vstd::arithmetic::div_mod::lemma_hoist_over_denominator(rr * pp, qq * pp, 100);
        assert(qq * pp <= tt) by (nonlinear_arith)
            requires
                tt == 100 * qq + rr,
                0 <= rr,
                0 <= qq,
                0 <= pp <= 100,
        ;
        assert(rr * pp < 10000) by (nonlinear_arith)
            requires
                0 <= rr < 100,
                0 <= pp <= 100,
        ;
        assert(rr * pp / 100 + qq * pp == (rr * pp + (qq * pp) * 100) / 100);
        assert(tt * pp / 100 <= tt) by (nonlinear_arith)
            requires
                0 <= tt,
                0 <= pp <= 100,
        ;
    }
    q * p + rem * p / 100
}

fn cu_sum(t: &Vec<(u64, u64)>) -> (r: u128)
    ensures
        r as int == cu_total(t@),
{
    let mut agg: u128 = 0;
    let mut k: usize = 0;
    while k < t.len()
        invariant
            k <= t@.len(),
            agg as int == cu_prefix(t@, k as int),
        decreases t@.len() - k,
    {
        proof {
            lemma_cu_prefix_bounds(t@, k + 1);
            assert((k + 1) * 0xffff_ffff_ffff_ffff < 0x1_0000_0000_0000_0000_0000_0000_0000_0000)
                by (nonlinear_arith)
                requires
                    k < 0xffff_ffff_ffff_ffff,
            ;
        }
        agg = agg + t[k].1 as u128;
        k = k + 1;
    }
    agg
}

/// The fee of the first entry whose running compute-unit sum exceeds `thr`.
fn fee_crossing(t: &Vec<(u64, u64)>, thr: u128) -> (r: Option<u64>)
    ensures
        r == crossing_from(t@, thr as int, 0),
{
    let mut agg: u128 = 0;
    let mut k: usize = 0;
    while k < t.len()
        invariant
            k <= t@.len(),
            agg as int == cu_prefix(t@, k as int),
            crossing_from(t@, thr as int, 0) == crossing_from(t@, thr as int, k as int),
        decreases t@.len() - k,
    {
        proof {
            lemma_cu_prefix_bounds(t@, k + 1);
            assert((k + 1) * 0xffff_ffff_ffff_ffff < 0x1_0000_0000_0000_0000_0000_0000_0000_0000)
                by (nonlinear_arith)
                requires
                    k < 0xffff_ffff_ffff_ffff,
            ;
        }
        agg = agg + t[k].1 as u128;
        if agg > thr {
            return Some(t[k].0);
        }
        k = k + 1;
    }
    None
}

/// Computes the fee statistics of a block from its `(prioritization fee,
/// compute units)` pairs. An empty block counts as one zero entry. The result
/// describes the pairs ordered by fee; ties in fee do not change it.
pub fn calculate_supp_stats(prio_fees_in_block: &Vec<(u64, u64)>) -> (r: PrioFeesStats)
    ensures
        exists|t: Seq<(u64, u64)>| sorted_form_of(t, prio_fees_in_block@) && describes(r, t),
{
    let mut t: Vec<(u64, u64)> = Vec::new();
    if prio_fees_in_block.len() == 0 {
        t.push((0, 0));
    } else {
        let mut i: usize = 0;
        while i < prio_fees_in_block.len()
            invariant
                i <= prio_fees_in_block@.len(),
                t@ == prio_fees_in_block@.subrange(0, i as int),
            decreases prio_fees_in_block@.len() - i,
        {
            t.push(prio_fees_in_block[i]);
            i = i + 1;
        }
        assert(t@ =~= prio_fees_in_block@);
    }
    assert(t@ =~= with_placeholder(prio_fees_in_block@));
    sort_by_fee(&mut t);
    let ghost ts = t@;

    let p_min = fee_at(&t, 0);
    let p_median = fee_at(&t, 50);
    let p_75 = fee_at(&t, 75);
    let p_90 = fee_at(&t, 90);
    let p_max = fee_at(&t, 100);

    let mut dist_fee_by_index: Vec<(String, u64)> = Vec::new();
    let mut k: u64 = 0;
    while k < 21
        invariant
            k <= 21,
            t@ == ts,
            ts.len() > 0,
            dist_fee_by_index@.len() == k,
            forall|m: int|
                0 <= m < k ==> #[trigger] labelled(dist_fee_by_index@)[m] == (
                    percentile_label((5 * m) as nat),
                    fee_at_share(ts, 5 * m),
                ),
        decreases 21 - k,
    {
        let label = label_for(5 * k);
        let fee = fee_at(&t, 5 * k);
        let ghost before = dist_fee_by_index@;
        dist_fee_by_index.push((label, fee));
        assert(labelled(dist_fee_by_index@) =~= labelled(before).push((label@, fee)));
        k = k + 1;
    }

    let total = cu_sum(&t);
    let p_median_cu = fee_crossing(&t, cu_share(total, 50));
    let p_75_cu = fee_crossing(&t, cu_share(total, 75));
    let p_90_cu = fee_crossing(&t, cu_share(total, 90));
    let p_95_cu = fee_crossing(&t, cu_share(total, 95));

    let mut dist_fee_by_cu: Vec<(String, u64)> = Vec::new();
    let mut j: u64 = 0;
    while j < 21
        invariant
            j <= 21,
            t@ == ts,
            total as int == cu_total(ts),
            labelled(dist_fee_by_cu@) == cu_dist(ts, j as int),
        decreases 21 - j,
    {
        let crossing = fee_crossing(&t, cu_share(total, 5 * j as u128));
        match crossing {
            Some(fee) => {
                let label = label_for(5 * j);
                let ghost before = dist_fee_by_cu@;
                dist_fee_by_cu.push((label, fee));
                assert(labelled(dist_fee_by_cu@) =~= labelled(before).push((label@, fee)));
            },
            None => {},
        }
        j = j + 1;
    }

    let r = PrioFeesStats {
        p_min,
        p_median,
        p_75,
        p_90,
        p_max,
        dist_fee_by_index,
        p_median_cu: match p_median_cu {
            Some(v) => v,
            None => 0,
        },
        p_75_cu: match p_75_cu {
            Some(v) => v,
            None => 0,
        },
        p_90_cu: match p_90_cu {
            Some(v) => v,
            None => 0,
        },
        p_95_cu: match p_95_cu {
            Some(v) => v,
            None => 0,
        },
        dist_fee_by_cu,
    };
    assert(sorted_form_of(ts, prio_fees_in_block@) && describes(r, ts));
    r
}

} // verus!
