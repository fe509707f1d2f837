use vstd::prelude::*;

use crate::harmonics::{harmonic_count, lists_harmonics, negative_harmonics, positive_harmonics};
use crate::resample::{is_schedule, sample_at, sample_schedule, SampleRef};
use crate::INTERPOLATION_AMOUNT;

verus! {

/// Why coefficients cannot be extracted from a path.
#[derive(Clone, Copy, Debug, PartialEq, Eq, Structural)]
pub enum CoefficientError {
    /// The path has no points, so there is no sample to average over.
    EmptyInput,
}

/// Everything about a coefficient extraction that does not depend on the
/// coordinates: the samples to average over, in order, and the harmonics to
/// evaluate. The coefficient of harmonic `n` is the mean over the samples
/// `k` of `exp(-2 pi i n k / m) * sample_k`, with `m` the number of samples;
/// the zero harmonic is always evaluated besides those listed.
pub struct CoefficientPlan {
    pub samples: Vec<SampleRef>,
    pub positive: Vec<isize>,
    pub negative: Vec<isize>,
}

/// Whether `p` is the plan for a closed path of `point_count` points and a
/// request for `extent` harmonics on each side.
pub open spec fn is_plan_for(p: CoefficientPlan, point_count: nat, extent: int) -> bool {
    &&& is_schedule(p.samples@, point_count, INTERPOLATION_AMOUNT as nat)
    &&& lists_harmonics(p.positive@, harmonic_count(extent), 1)
    &&& lists_harmonics(p.negative@, harmonic_count(extent), -1)
}

/// Plans the extraction of the coefficients of a closed path of
/// `point_count` points, for harmonics `-extent..=extent`. Fails with
/// `EmptyInput` exactly when the path has no points.
pub fn plan_coefficients(point_count: usize, extent: isize) -> (r: Result<CoefficientPlan, CoefficientError>)
    requires
        point_count * INTERPOLATION_AMOUNT <= usize::MAX,
    ensures
        r is Err <==> point_count == 0,
        r is Err ==> r == Err::<CoefficientPlan, CoefficientError>(CoefficientError::EmptyInput),
        r matches Ok(p) ==> {
            &&& is_plan_for(p, point_count as nat, extent as int)
            &&& p.samples@.len() > 0
            &&& extent >= 0 ==> p.positive@.len() == extent && p.negative@.len() == extent
            &&& extent <= 0 ==> p.positive@.len() == 0 && p.negative@.len() == 0
            &&& forall|k: int| 0 <= k < p.samples@.len() ==> {
                &&& (#[trigger] p.samples@[k]).from < point_count
                &&& p.samples@[k].to < point_count
                &&& p.samples@[k].step < INTERPOLATION_AMOUNT
            }
        },
{
    if point_count == 0 {
        return Err(CoefficientError::EmptyInput);
    }
    let samples = sample_schedule(point_count, INTERPOLATION_AMOUNT);
    let positive = positive_harmonics(extent);
    let negative = negative_harmonics(extent);
    proof {
        assert(point_count * INTERPOLATION_AMOUNT > 0) by (nonlinear_arith)
            requires point_count > 0;
        assert forall|k: int| 0 <= k < samples@.len() implies {
            &&& (#[trigger] samples@[k]).from < point_count
            &&& samples@[k].to < point_count
            &&& samples@[k].step < INTERPOLATION_AMOUNT
        } by {
            lemma_sample_in_bounds(k as nat, point_count as nat, INTERPOLATION_AMOUNT as nat);
        }
    }
    Ok(CoefficientPlan { samples, positive, negative })
}

/// Every sample of a resampled polygon interpolates between two of its
/// vertices, at a sub-step below the number of samples per edge.
pub proof fn lemma_sample_in_bounds(k: nat, len: nat, amount: nat)
    requires
        amount > 0,
        k < len * amount,
        len * amount <= usize::MAX,
    ensures
        sample_at(k, len, amount).from < len,
        sample_at(k, len, amount).to < len,
        sample_at(k, len, amount).step < amount,
{
    assert(k / amount < len) by (nonlinear_arith)
        requires amount > 0, k < len * amount;
    assert(k % amount < amount) by (nonlinear_arith)
        requires amount > 0;
    assert(k / amount <= k) by (nonlinear_arith)
        requires amount > 0;
}

/// A positive harmonic and the negative one at the same index are never the
/// same harmonic: the two lists pair `n` with `-n`, and nothing ties their
/// coefficients together.
pub proof fn lemma_paired_harmonics_differ(p: CoefficientPlan, point_count: nat, extent: int, i: int)
    requires
        is_plan_for(p, point_count, extent),
        0 <= i < p.positive@.len(),
    ensures
        i < p.negative@.len(),
        p.positive@[i] == i + 1,
        p.negative@[i] == -(i + 1),
        p.positive@[i] != p.negative@[i],
{
}

/// A path of a single point resamples to that point over and over: every
/// sample interpolates from vertex 0 to vertex 0.
pub proof fn lemma_single_point_is_stationary(p: CoefficientPlan, extent: int, k: int)
    requires
        is_plan_for(p, 1, extent),
        0 <= k < p.samples@.len(),
    ensures
        p.samples@[k].from == 0,
        p.samples@[k].to == 0,
{
    assert(k < 1 * INTERPOLATION_AMOUNT);
    assert(k / (INTERPOLATION_AMOUNT as int) == 0);
}

} // verus!
