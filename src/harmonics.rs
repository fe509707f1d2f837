use vstd::prelude::*;

verus! {

/// How many positive (and how many negative) harmonics a request for
/// `extent` harmonics yields: a negative extent asks for none.
pub open spec fn harmonic_count(extent: int) -> nat {
    if extent > 0 { extent as nat } else { 0 }
}

/// Whether `s` lists the harmonics `sign * 1, sign * 2, ..., sign * count`
/// in that order.
pub open spec fn lists_harmonics(s: Seq<isize>, count: nat, sign: int) -> bool {
    &&& s.len() == count
    &&& forall|i: int| 0 <= i < s.len() ==> #[trigger] s[i] == sign * (i + 1)
}

/// How many positive (and how many negative) harmonics a request for
/// `extent` harmonics yields.
pub fn requested_harmonics(extent: isize) -> (r: usize)
    ensures
        r == harmonic_count(extent as int),
        r <= isize::MAX,
{
    if extent > 0 { extent as usize } else { 0 }
}

/// The positive harmonics `1, 2, ..., extent`, in increasing order; none
/// when `extent` is zero or negative.
pub fn positive_harmonics(extent: isize) -> (r: Vec<isize>)
    ensures
        lists_harmonics(r@, harmonic_count(extent as int), 1),
{
    let count = requested_harmonics(extent);
    let mut r: Vec<isize> = Vec::new();
    let mut i: usize = 0;
    while i < count
        invariant
            count <= isize::MAX,
            i <= count,
            r@.len() == i,
            forall|k: int| 0 <= k < r@.len() ==> #[trigger] r@[k] == 1 * (k + 1),
        decreases count - i,
    {
        r.push((i + 1) as isize);
        i = i + 1;
    }
    r
}

/// The negative harmonics `-1, -2, ..., -extent`, in that order; none when
/// `extent` is zero or negative.
pub fn negative_harmonics(extent: isize) -> (r: Vec<isize>)
    ensures
        lists_harmonics(r@, harmonic_count(extent as int), -1),
{
    let count = requested_harmonics(extent);
    let mut r: Vec<isize> = Vec::new();
    let mut i: usize = 0;
    while i < count
        invariant
            count <= isize::MAX,
            i <= count,
            r@.len() == i,
            forall|k: int| 0 <= k < r@.len() ==> #[trigger] r@[k] == -1 * (k + 1),
        decreases count - i,
    {
        r.push(-((i + 1) as isize));
        i = i + 1;
    }
    r
}

} // verus!
