use vstd::prelude::*;

verus! {

/// A frequency grid of evenly spaced samples over [0, pi].
///
/// Sample `i` is the frequency `pi * num[i] / den`, so the grid is stored
/// exactly: a vector of numerators over the common denominator `den`. A
/// well-formed grid of `den + 1` samples has `num[i] == i`, which makes the
/// samples strictly increasing from 0 (numerator 0) to pi (numerator `den`).
#[derive(Debug)]
pub struct FrequencyGrid {
    pub num: Vec<usize>,
    pub den: usize,
}

impl FrequencyGrid {
    pub open spec fn wf(self) -> bool {
        &&& self.den >= 1
        &&& self.num.len() == self.den + 1
        &&& forall|i: int| 0 <= i < self.num.len() ==> self.num[i] == i
    }

    /// Number of samples.
    pub fn len(&self) -> (l: usize)
        ensures
            l == self.num.len(),
    {
        self.num.len()
    }
}

/// Samples the frequency axis for a filter of length `n`: exactly `15 * n`
/// evenly spaced frequencies from 0 to pi inclusive.
pub fn sample_frequencies(n: usize) -> (g: FrequencyGrid)
    requires
        n >= 1,
        15 * n <= usize::MAX,
    ensures
        g.wf(),
        g.num.len() == 15 * n,
        g.den == 15 * n - 1,
{
    let m = 15 * n;
    let mut num: Vec<usize> = Vec::new();
    let mut i: usize = 0;
    while i < m
        invariant
            i <= m,
            m == 15 * n,
            num.len() == i,
            forall|j: int| 0 <= j < i ==> num[j] == j,
        decreases m - i,
    {
        num.push(i);
        i = i + 1;
    }
    FrequencyGrid { num, den: m - 1 }
}

/// The grid shape law: a well-formed grid starts at frequency 0, ends at
/// frequency pi (numerator equal to the denominator), and its samples are
/// strictly increasing.
pub proof fn lemma_grid_shape(g: FrequencyGrid)
    requires
        g.wf(),
    ensures
        g.num.len() == g.den + 1,
        g.num[0] == 0,
        g.num[g.num.len() - 1] == g.den,
        forall|i: int, j: int| 0 <= i < j < g.num.len() ==> g.num[i] < g.num[j],
{
}

} // verus!
