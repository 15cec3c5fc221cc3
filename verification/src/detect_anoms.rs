use crate::error::{
    decompose_error, decompose_msg, is_series_error, nan_error, nan_msg, short_series_error,
    short_series_msg, Error,
};
use crate::fbits::{
    abs32, f32_cmp_key, f32_is_nan, in_unit64, is_nan32, is_zero32, key32, key_le,
    lemma_key_le_total_ordering, lt32,
};
use crate::fraction::{frac_floor, lemma_frac_floor_zero, spec_frac_floor};
use crate::numerics::Numerics;
use crate::students_t::inverse_cdf;
use vstd::prelude::*;
use vstd::relations::sorted_by;
use vstd::seq_lib::lemma_sorted_unique;

verus! {

/// Bits of 2.0 as binary32.
const C_TWO: u32 = 0x4000_0000;

/// Bits of 1.0 as binary32.
const C_ONE: u32 = 0x3F80_0000;

/// Bits of 1.4826 as binary32: the factor that makes the median absolute
/// deviation a consistent estimator of the standard deviation.
const C_MAD_SCALE: u32 = 0x3FBD_C5D6;

/// Some observation of the series is NaN.
pub open spec fn seq_has_nan(s: Seq<u32>) -> bool {
    exists|i: int| 0 <= i < s.len() && f32_is_nan(s[i])
}

/// Sorts binary32 bit patterns into the key order (the IEEE value order,
/// with -0.0 just below +0.0), by insertion; the result is the canonical
/// sorted permutation.
fn sort_vals(data: &[u32]) -> (r: Vec<u32>)
    ensures
        r@ == data@.sort_by(key_le()),
        r@.len() == data@.len(),
        sorted_by(r@, key_le()),
{
    let mut r: Vec<u32> = Vec::new();
    let mut i: usize = 0;
    proof {
        assert(data@.take(0) =~= r@);
    }
    while i < data.len()
        invariant
            i <= data@.len(),
            r@.len() == i,
            sorted_by(r@, key_le()),
            r@.to_multiset() == data@.take(i as int).to_multiset(),
        decreases data@.len() - i,
    {
        let x = data[i];
        let mut pos: usize = 0;
        while pos < r.len() && key32(r[pos]) <= key32(x)
            invariant
                pos <= r@.len(),
                forall|t: int| 0 <= t < pos ==> f32_cmp_key(r@[t]) <= f32_cmp_key(x),
            decreases r@.len() - pos,
        {
            pos += 1;
        }
        let ghost old_r = r@;
        r.insert(pos, x);
        proof {
            broadcast use vstd::seq_lib::group_to_multiset_ensures;

            old_r.insert_ensures(pos as int, x);
            assert forall|s: int, t: int| 0 <= s < t < r@.len() implies key_le()(
                r@[s],
                r@[t],
            ) by {
                if t <= pos {
                    assert(f32_cmp_key(r@[s]) <= f32_cmp_key(x));
                    if t < pos {
                        assert(key_le()(old_r[s], old_r[t]));
                    }
                } else {
                    assert(r@[t] == old_r[t - 1]);
                    assert(f32_cmp_key(old_r[pos as int]) > f32_cmp_key(x) || pos as int > t - 1);
                    if s > pos {
                        assert(key_le()(old_r[s - 1], old_r[t - 1]));
                    } else if s == pos {
                        if pos as int <= t - 1 {
                            assert(key_le()(old_r[pos as int], old_r[t - 1]));
                            assert(f32_cmp_key(x) <= f32_cmp_key(old_r[t - 1]));
                        }
                    } else {
                        assert(key_le()(old_r[s], old_r[t - 1]) || pos as int > t - 1);
                    }
                }
            }
            assert(r@.to_multiset() =~= old_r.to_multiset().insert(x));
            assert(data@.take(i + 1) =~= data@.take(i as int).push(x));
            assert(data@.take(i + 1).to_multiset() =~= data@.take(i as int).to_multiset().insert(
                x,
            ));
        }
        i += 1;
    }
    proof {
        assert(data@.take(data@.len() as int) =~= data@);
        lemma_key_le_total_ordering();
        data@.lemma_sort_by_ensures(key_le());
        lemma_sorted_unique(r@, data@.sort_by(key_le()), key_le());
    }
    r
}

/// The average of the lower and upper middle elements: on a sorted sample,
/// the median convention the detector replicates exactly, whatever the
/// sample's parity.
fn median_sorted<N: Numerics>(num: &N, sorted: &Vec<u32>) -> u32
    requires
        sorted@.len() >= 1,
        sorted_by(sorted@, key_le()),
{
    let l = sorted.len();
    num.div32(num.add32(sorted[(l - 1) / 2], sorted[l / 2]), C_TWO)
}

/// The median of an unsorted sample: sort, then average the middles.
fn median<N: Numerics>(num: &N, data: &[u32]) -> u32
    requires
        data@.len() >= 1,
{
    let sorted = sort_vals(data);
    median_sorted(num, &sorted)
}

/// The median absolute deviation about `med`, scaled by 1.4826.
fn mad<N: Numerics>(num: &N, data: &[u32], med: u32) -> u32
    requires
        data@.len() >= 1,
{
    let mut devs: Vec<u32> = Vec::new();
    let mut j: usize = 0;
    while j < data.len()
        invariant
            j <= data@.len(),
            devs@.len() == j,
        decreases data@.len() - j,
    {
        devs.push(abs32(num.sub32(data[j], med)));
        j += 1;
    }
    let sorted = sort_vals(devs.as_slice());
    num.mul32(C_MAD_SCALE, median_sorted(num, &sorted))
}

/// The position of the largest element in key order; among equals, the
/// first one seen wins.
fn argmax_first(ares: &Vec<u32>) -> (idx: usize)
    requires
        ares@.len() >= 1,
    ensures
        idx < ares@.len(),
        forall|j: int|
            0 <= j < ares@.len() ==> f32_cmp_key(ares@[j]) <= f32_cmp_key(ares@[idx as int]),
        forall|j: int| 0 <= j < idx ==> f32_cmp_key(ares@[j]) < f32_cmp_key(ares@[idx as int]),
{
    let mut best: usize = 0;
    let mut j: usize = 1;
    while j < ares.len()
        invariant
            best < j,
            j <= ares@.len(),
            forall|t: int| 0 <= t < j ==> f32_cmp_key(ares@[t]) <= f32_cmp_key(ares@[best as int]),
            forall|t: int| 0 <= t < best ==> f32_cmp_key(ares@[t]) < f32_cmp_key(ares@[best as int]),
        decreases ares@.len() - j,
    {
        if key32(ares[j]) > key32(ares[best]) {
            best = j;
        }
        j += 1;
    }
    best
}

/// A residual paired with the index it came from.
#[derive(Clone, Copy)]
struct Pt {
    v: u32,
    ix: usize,
}

/// Value order on pairs, index as tie-break: a strict weak order made total.
spec fn pt_le(a: Pt, b: Pt) -> bool {
    f32_cmp_key(a.v) < f32_cmp_key(b.v) || (f32_cmp_key(a.v) == f32_cmp_key(b.v) && a.ix <= b.ix)
}

spec fn pts_sorted(s: Seq<Pt>) -> bool {
    forall|i: int, j: int| 0 <= i < j < s.len() ==> pt_le(s[i], s[j])
}

/// No two pairs carry the same original index.
spec fn distinct_ix(s: Seq<Pt>) -> bool {
    forall|i: int, j: int| 0 <= i < j < s.len() ==> s[i].ix != s[j].ix
}

/// Every pair's index lies in the series and carries that observation.
spec fn pts_match(s: Seq<Pt>, resid: Seq<u32>) -> bool {
    forall|j: int|
        0 <= j < s.len() ==> (#[trigger] s[j]).ix < resid.len() && s[j].v == resid[s[j].ix as int]
}

fn pt_le_exec(a: Pt, b: Pt) -> (r: bool)
    ensures
        r == pt_le(a, b),
{
    let ka = key32(a.v);
    let kb = key32(b.v);
    ka < kb || (ka == kb && a.ix <= b.ix)
}

/// Pairs every residual with its index and sorts ascending by value, the
/// original position breaking ties, as a stable sort of the indices does.
fn sorted_pairs(resid: &Vec<u32>) -> (pts: Vec<Pt>)
    ensures
        pts@.len() == resid@.len(),
        pts_sorted(pts@),
        distinct_ix(pts@),
        pts_match(pts@, resid@),
{
    let mut pts: Vec<Pt> = Vec::new();
    let mut i: usize = 0;
    while i < resid.len()
        invariant
            i <= resid@.len(),
            pts@.len() == i,
            pts_sorted(pts@),
            pts_match(pts@, resid@),
            forall|j: int| 0 <= j < pts@.len() ==> (#[trigger] pts@[j]).ix < i,
            distinct_ix(pts@),
        decreases resid@.len() - i,
    {
        let cur = Pt { v: resid[i], ix: i };
        let mut pos: usize = 0;
        while pos < pts.len() && pt_le_exec(pts[pos], cur)
            invariant
                pos <= pts@.len(),
                forall|t: int| 0 <= t < pos ==> pt_le(#[trigger] pts@[t], cur),
            decreases pts@.len() - pos,
        {
            pos += 1;
        }
        let ghost old_pts = pts@;
        pts.insert(pos, cur);
        proof {
            old_pts.insert_ensures(pos as int, cur);
            assert forall|s: int, t: int| 0 <= s < t < pts@.len() implies pt_le(
                pts@[s],
                pts@[t],
            ) by {
                if t <= pos {
                    assert(pt_le(pts@[s], cur));
                    if t < pos {
                        assert(pt_le(old_pts[s], old_pts[t]));
                    }
                } else {
                    assert(pts@[t] == old_pts[t - 1]);
                    if s > pos {
                        assert(pt_le(old_pts[s - 1], old_pts[t - 1]));
                    } else if s == pos {
                        assert(!pt_le(old_pts[pos as int], cur) || pos as int > t - 1);
                        assert(pt_le(old_pts[pos as int], old_pts[t - 1]));
                    } else {
                        assert(pt_le(old_pts[s], cur));
                        assert(!pt_le(old_pts[pos as int], cur));
                        assert(pt_le(old_pts[pos as int], old_pts[t - 1]));
                    }
                }
            }
        }
        i += 1;
    }
    pts
}

/// Ascending order on indices.
pub open spec fn usize_le() -> spec_fn(usize, usize) -> bool {
    |a: usize, b: usize| a <= b
}

/// The flagged indices come out strictly ascending: sorted, with no index
/// repeated.
pub open spec fn strictly_ascending(s: Seq<usize>) -> bool {
    forall|i: int, j: int| 0 <= i < j < s.len() ==> s[i] < s[j]
}

/// Sorts indices ascending by insertion, keeping the collection of indices.
fn sort_usize(v: Vec<usize>) -> (r: Vec<usize>)
    ensures
        sorted_by(r@, usize_le()),
        r@.to_multiset() == v@.to_multiset(),
        r@.len() == v@.len(),
{
    let mut r: Vec<usize> = Vec::new();
    let mut i: usize = 0;
    proof {
        assert(v@.take(0) =~= r@);
    }
    while i < v.len()
        invariant
            i <= v@.len(),
            r@.len() == i,
            sorted_by(r@, usize_le()),
            r@.to_multiset() == v@.take(i as int).to_multiset(),
        decreases v@.len() - i,
    {
        let x = v[i];
        let mut pos: usize = 0;
        while pos < r.len() && r[pos] <= x
            invariant
                pos <= r@.len(),
                forall|t: int| 0 <= t < pos ==> r@[t] <= x,
            decreases r@.len() - pos,
        {
            pos += 1;
        }
        let ghost old_r = r@;
        r.insert(pos, x);
        proof {
            broadcast use vstd::seq_lib::group_to_multiset_ensures;

            old_r.insert_ensures(pos as int, x);
            assert forall|s: int, t: int| 0 <= s < t < r@.len() implies usize_le()(
                r@[s],
                r@[t],
            ) by {
                if t <= pos {
                    if t < pos {
                        assert(usize_le()(old_r[s], old_r[t]));
                    }
                } else {
                    assert(r@[t] == old_r[t - 1]);
                    if s > pos {
                        assert(usize_le()(old_r[s - 1], old_r[t - 1]));
                    } else if s == pos {
                        if pos as int <= t - 1 {
                            assert(usize_le()(old_r[pos as int], old_r[t - 1]));
                        }
                    } else {
                        assert(usize_le()(old_r[s], old_r[t - 1]) || pos as int > t - 1);
                    }
                }
            }
            assert(r@.to_multiset() =~= old_r.to_multiset().insert(x));
            assert(v@.take(i + 1) =~= v@.take(i as int).push(x));
            assert(v@.take(i + 1).to_multiset() =~= v@.take(i as int).to_multiset().insert(x));
        }
        i += 1;
    }
    proof {
        assert(v@.take(v@.len() as int) =~= v@);
    }
    r
}

/// Every flagged index lies in the series.
pub open spec fn seq_bounded(s: Seq<usize>, n: int) -> bool {
    forall|j: int| 0 <= j < s.len() ==> s[j] < n
}

/// The flagged indices and the pairs still in play never share an index.
spec fn disjoint_ix(anoms: Seq<usize>, pts: Seq<Pt>) -> bool {
    forall|j: int, l: int|
        #![trigger anoms[j], pts[l]]
        0 <= j < anoms.len() && 0 <= l < pts.len() ==> anoms[j] != pts[l].ix
}

/// Detects anomalous observations by the iterative generalized extreme
/// Studentized deviate test over seasonally adjusted residuals.
///
/// The series arrives as binary32 bit patterns; `k` caps the flagged
/// fraction and `alpha` is the significance level, both binary32 patterns
/// as well. The series is rejected when it holds fewer than two full
/// periods or any NaN. Each iteration strips the most extreme residual and
/// tests it against the critical value for that step; every iteration runs,
/// and the longest prefix of significant steps is kept. `verbose` is
/// accepted for interface compatibility; this library reports no progress.
#[verifier::loop_isolation(false)]
pub fn detect_anoms<N: Numerics>(
    num: &N,
    data: &[u32],
    num_obs_per_period: usize,
    k: u32,
    alpha: u32,
    one_tail: bool,
    upper_tail: bool,
    verbose: bool,
) -> (r: Result<Vec<usize>, Error>)
    ensures
        data@.len() < 2 * num_obs_per_period ==> (r matches Err(e) && is_series_error(
            e,
            short_series_msg(),
        )),
        data@.len() >= 2 * num_obs_per_period && seq_has_nan(data@) ==> (r matches Err(e)
            && is_series_error(e, nan_msg())),
        data@.len() >= 2 * num_obs_per_period && !seq_has_nan(data@) ==> (r matches Ok(v) || (
        r matches Err(e) && is_series_error(e, decompose_msg()))),
        r matches Ok(v) ==> data@.len() >= 2 * num_obs_per_period && !seq_has_nan(data@),
        r matches Ok(v) ==> strictly_ascending(v@),
        r matches Ok(v) ==> seq_bounded(v@, data@.len() as int),
        r matches Ok(v) ==> v@.len() <= spec_frac_floor(data@.len() as usize, k),
        r matches Ok(v) ==> (k & 0x7FFF_FFFF == 0 ==> v@.len() == 0),
{
    let _ = verbose;
    let n = data.len();

    // at least two full periods of context
    proof {
        assert(n / 2 < num_obs_per_period <==> (n as int) < 2 * (num_obs_per_period as int));
    }
    if n / 2 < num_obs_per_period {
        return Err(short_series_error());
    }
    let mut j: usize = 0;
    while j < n
        invariant
            j <= n,
            n == data@.len(),
            forall|t: int| 0 <= t < j ==> !f32_is_nan(data@[t]),
        decreases n - j,
    {
        if is_nan32(data[j]) {
            return Err(nan_error());
        }
        j += 1;
    }

    // the collaborator's robust decomposition supplies the seasonal component
    let seasonal = match num.seasonal(data, num_obs_per_period) {
        Some(s) => s,
        None => {
            return Err(decompose_error());
        },
    };
    if seasonal.len() != n {
        return Err(decompose_error());
    }
    if n == 0 {
        // only a period of zero admits an empty series; nothing to flag
        return Ok(Vec::new());
    }
    // residual: the observation, less the seasonal component and the median
    let med = median(num, data);
    let mut resid: Vec<u32> = Vec::new();
    let mut t: usize = 0;
    while t < n
        invariant
            t <= n,
            resid@.len() == t,
            n == data@.len(),
            seasonal@.len() == n,
        decreases n - t,
    {
        resid.push(num.sub32(data[t], num.add32(seasonal[t], med)));
        t += 1;
    }

    let max_outliers = frac_floor(n, k);

    // sorted once up front; each iteration removes one pair
    let mut pts = sorted_pairs(&resid);
    let mut anomalies: Vec<usize> = Vec::new();
    let mut num_anoms: usize = 0;

    let mut i: usize = 1;
    while i <= max_outliers
        invariant
            1 <= i,
            i <= max_outliers + 1,
            max_outliers == spec_frac_floor(n, k),
            n == data@.len(),
            anomalies@.len() == i - 1,
            num_anoms <= i - 1,
            pts@.len() + i == n + 1,
            pts_sorted(pts@),
            distinct_ix(pts@),
            forall|l: int| 0 <= l < pts@.len() ==> (#[trigger] pts@[l]).ix < n,
            anomalies@.no_duplicates(),
            seq_bounded(anomalies@, n as int),
            disjoint_ix(anomalies@, pts@),
        decreases max_outliers - i + 1,
    {
        // the test needs a positive degree-of-freedom count ahead
        if pts.len() < 3 {
            break;
        }
        let mut vals: Vec<u32> = Vec::new();
        let mut w: usize = 0;
        while w < pts.len()
            invariant
                w <= pts@.len(),
                vals@.len() == w,
                forall|t: int| 0 <= t < w ==> vals@[t] == (#[trigger] pts@[t]).v,
            decreases pts@.len() - w,
        {
            vals.push(pts[w].v);
            w += 1;
        }
        proof {
            assert forall|a: int, b: int| 0 <= a < b < vals@.len() implies key_le()(
                vals@[a],
                vals@[b],
            ) by {
                assert(pt_le(pts@[a], pts@[b]));
            }
        }
        let ma = median_sorted(num, &vals);

        // deviations, one-sided or absolute, by direction
        let mut ares: Vec<u32> = Vec::new();
        let mut u: usize = 0;
        while u < vals.len()
            invariant
                u <= vals@.len(),
                ares@.len() == u,
            decreases vals@.len() - u,
        {
            let v = vals[u];
            let a = if one_tail {
                if upper_tail {
                    num.sub32(v, ma)
                } else {
                    num.sub32(ma, v)
                }
            } else {
                abs32(num.sub32(v, ma))
            };
            ares.push(a);
            u += 1;
        }

        // a locally constant sample ends the search
        let data_sigma = mad(num, vals.as_slice(), ma);
        if is_zero32(data_sigma) {
            break;
        }

        let idx = argmax_first(&ares);
        let r0 = ares[idx];
        let rr = num.div32(r0, data_sigma);

        let ghost old_an = anomalies@;
        let ghost old_pts = pts@;
        anomalies.push(pts[idx].ix);
        let _removed = pts.remove(idx);
        proof {
            old_pts.remove_ensures(idx as int);
            assert forall|a: int, b: int| 0 <= a < b < pts@.len() implies pt_le(
                pts@[a],
                pts@[b],
            ) by {
                let a0 = if a < idx {
                    a
                } else {
                    a + 1
                };
                let b0 = if b < idx {
                    b
                } else {
                    b + 1
                };
                assert(pts@[a] == old_pts[a0] && pts@[b] == old_pts[b0]);
            }
            assert forall|a: int, b: int| 0 <= a < b < pts@.len() implies pts@[a].ix
                != pts@[b].ix by {
                let a0 = if a < idx {
                    a
                } else {
                    a + 1
                };
                let b0 = if b < idx {
                    b
                } else {
                    b + 1
                };
                assert(pts@[a] == old_pts[a0] && pts@[b] == old_pts[b0]);
            }
            assert forall|l: int| 0 <= l < pts@.len() implies (#[trigger] pts@[l]).ix < n by {
                let l0 = if l < idx {
                    l
                } else {
                    l + 1
                };
                assert(pts@[l] == old_pts[l0]);
            }
            assert(anomalies@ == old_an.push(old_pts[idx as int].ix));
            assert forall|a: int, b: int|
                0 <= a < b < anomalies@.len() implies anomalies@[a] != anomalies@[b] by {
                if b < anomalies@.len() - 1 {
                    assert(old_an[a] != old_an[b]);
                } else {
                    assert(anomalies@[b] == old_pts[idx as int].ix);
                }
            }
            assert forall|a: int, l: int|
                #![trigger anomalies@[a], pts@[l]]
                0 <= a < anomalies@.len() && 0 <= l < pts@.len() implies anomalies@[a]
                != pts@[l].ix by {
                let l0 = if l < idx {
                    l
                } else {
                    l + 1
                };
                assert(pts@[l] == old_pts[l0]);
                if a < anomalies@.len() - 1 {
                    assert(old_an[a] != old_pts[l0].ix);
                } else {
                    assert(old_pts[idx as int].ix != old_pts[l0].ix);
                }
            }
        }

        // the critical value for this iteration
        let m1 = n - i + 1;
        let p32 = if one_tail {
            num.sub32(C_ONE, num.div32(alpha, num.int_to_32(m1)))
        } else {
            num.sub32(C_ONE, num.div32(alpha, num.mul32(C_TWO, num.int_to_32(m1))))
        };
        let p64 = num.widen(p32);
        // a probability outside the unit interval can only stem from a
        // significance level outside (0, 1); such a step counts as not
        // significant
        if in_unit64(p64) {
            let t64 = inverse_cdf(num, p64, (n - i - 1) as u64);
            let tv = num.narrow(t64);
            let lam = num.div32(
                num.mul32(tv, num.int_to_32(n - i)),
                num.sqrt32(
                    num.mul32(
                        num.add32(num.int_to_32(n - i - 1), num.mul32(tv, tv)),
                        num.int_to_32(m1),
                    ),
                ),
            );
            if lt32(lam, rr) {
                num_anoms = i;
            }
        }
        i += 1;
    }

    // keep the longest prefix of significant steps, in index order
    let ghost pre_truncate = anomalies@;
    anomalies.truncate(num_anoms);
    proof {
        assert(anomalies@ == pre_truncate.subrange(0, num_anoms as int));
        assert forall|a: int, b: int|
            0 <= a < b < anomalies@.len() implies anomalies@[a] != anomalies@[b] by {
            assert(anomalies@[a] == pre_truncate[a] && anomalies@[b] == pre_truncate[b]);
        }
    }
    let ghost fin = anomalies@;
    let out = sort_usize(anomalies);
    proof {
        broadcast use vstd::seq_lib::group_to_multiset_ensures;

        fin.lemma_multiset_has_no_duplicates();
        out@.lemma_multiset_has_no_duplicates_conv();
        assert forall|l: int| 0 <= l < out@.len() implies out@[l] < n by {
            assert(out@.to_multiset().count(out@[l]) > 0);
            assert(fin.to_multiset().count(out@[l]) > 0);
            assert(fin.contains(out@[l]));
        }
        assert forall|a: int, b: int| 0 <= a < b < out@.len() implies out@[a] < out@[b] by {
            assert(usize_le()(out@[a], out@[b]));
        }
        if k & 0x7FFF_FFFF == 0 {
            lemma_frac_floor_zero(n, k);
        }
    }
    Ok(out)
}

} // verus!
