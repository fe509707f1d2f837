use vstd::prelude::*;
use vstd::arithmetic::div_mod::lemma_fundamental_div_mod_converse;

verus! {

/// Index of the vertex that follows vertex `i` on a closed polygon of
/// `len` vertices: the last vertex connects back to the first.
pub open spec fn next_index(i: nat, len: nat) -> nat {
    if i + 1 == len { 0 } else { i + 1 }
}

/// The vertex that follows vertex `i` on a closed polygon of `len` vertices.
pub fn next_vertex(i: usize, len: usize) -> (j: usize)
    requires
        i < len,
    ensures
        j == next_index(i as nat, len as nat),
        j < len,
        j as int == (i as int + 1) % (len as int),
{
    proof {
        if i + 1 == len {
            lemma_fundamental_div_mod_converse(i + 1, len as int, 1, 0);
        } else {
            lemma_fundamental_div_mod_converse(i + 1, len as int, 0, i + 1);
        }
    }
    if i + 1 == len { 0 } else { i + 1 }
}

/// One interpolated sample of a closed polygon: the point that lies the
/// fraction `step / amount` of the way from vertex `from` to vertex `to`,
/// coordinate by coordinate: `v[from] + (v[to] - v[from]) * (step / amount)`.
#[derive(Clone, Copy, Debug, PartialEq, Eq, Structural)]
pub struct SampleRef {
    pub from: usize,
    pub to: usize,
    pub step: usize,
}

/// The `k`-th sample of a polygon of `len` vertices resampled with `amount`
/// samples per edge: edge `k / amount`, sub-step `k % amount`.
pub open spec fn sample_at(k: nat, len: nat, amount: nat) -> SampleRef {
    let i = k / amount;
    SampleRef { from: i as usize, to: next_index(i, len) as usize, step: (k % amount) as usize }
}

/// Whether `s` is the whole resampling of a polygon of `len` vertices with
/// `amount` samples per edge, in order.
pub open spec fn is_schedule(s: Seq<SampleRef>, len: nat, amount: nat) -> bool {
    &&& s.len() == len * amount
    &&& forall|k: int| 0 <= k < s.len() ==> #[trigger] s[k] == sample_at(k as nat, len, amount)
}

/// Lists the samples of a closed polygon of `point_count` vertices, with
/// `amount` evenly spaced samples along each edge (the edge from the last
/// vertex back to the first included), edge by edge in vertex order.
pub fn sample_schedule(point_count: usize, amount: usize) -> (r: Vec<SampleRef>)
    requires
        amount > 0,
        point_count * amount <= usize::MAX,
    ensures
        is_schedule(r@, point_count as nat, amount as nat),
{
    let mut r: Vec<SampleRef> = Vec::new();
    let mut i: usize = 0;
    while i < point_count
        invariant
            amount > 0,
            point_count * amount <= usize::MAX,
            i <= point_count,
            r@.len() == i * amount,
            forall|k: int| 0 <= k < r@.len() ==> #[trigger] r@[k] == sample_at(k as nat, point_count as nat, amount as nat),
        decreases point_count - i,
    {
        let j = next_vertex(i, point_count);
        let mut t: usize = 0;
        while t < amount
            invariant
                amount > 0,
                point_count * amount <= usize::MAX,
                i < point_count,
                j == next_index(i as nat, point_count as nat),
                t <= amount,
                r@.len() == i * amount + t,
                forall|k: int| 0 <= k < r@.len() ==> #[trigger] r@[k] == sample_at(k as nat, point_count as nat, amount as nat),
            decreases amount - t,
        {
            proof {
                let k = i * amount + t;
                lemma_fundamental_div_mod_converse(k, amount as int, i as int, t as int);
                assert(k < point_count * amount) by (nonlinear_arith)
                    requires i < point_count, t < amount, k == i * amount + t;
            }
            r.push(SampleRef { from: i, to: j, step: t });
            t = t + 1;
        }
        proof {
            assert((i + 1) * amount == i * amount + amount) by (nonlinear_arith);
        }
        i = i + 1;
    }
    r
}

} // verus!
