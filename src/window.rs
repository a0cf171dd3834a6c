//! The rolling analysis window: a fixed number of the most recent samples.
use vstd::prelude::*;

verus! {

/// The window after `fresh` arrives: the oldest `fresh.len()` samples of
/// `old` are gone, the fresh ones follow the rest, and the length stays.
pub open spec fn shifted<T>(old: Seq<T>, fresh: Seq<T>) -> Seq<T> {
    old.subrange(fresh.len() as int, old.len() as int) + fresh
}

/// Number of leading samples that a fraction `1 / divisor` of a window of
/// `len` samples covers.
pub open spec fn leading_len(len: nat, divisor: nat) -> nat
    recommends
        divisor > 0,
{
    len / divisor
}

/// Fraction of the window, as `1 / divisor`, over which power is measured
/// unless another is chosen.
pub const DEFAULT_POWER_DIVISOR: usize = 8;

/// A window of samples whose length is fixed when it is made.
pub struct SampleWindow<T> {
    samples: Vec<T>,
}

impl<T: Copy> SampleWindow<T> {
    /// The samples, oldest first.
    pub closed spec fn view(&self) -> Seq<T> {
        self.samples@
    }

    /// A window of `len` samples, each `fill` (silence, at startup).
    pub fn new(len: usize, fill: T) -> (r: Self)
        ensures
            r@ == Seq::new(len as nat, |_i: int| fill),
    {
        let mut samples: Vec<T> = Vec::with_capacity(len);
        let mut i: usize = 0;
        while i < len
            invariant
                i <= len,
                samples@ == Seq::new(i as nat, |_j: int| fill),
            decreases len - i,
        {
            samples.push(fill);
            i = i + 1;
        }
        SampleWindow { samples }
    }

    /// Number of samples the window holds.
    pub fn len(&self) -> (r: usize)
        ensures
            r == self@.len(),
    {
        self.samples.len()
    }

    /// The samples, oldest first.
    pub fn samples(&self) -> (r: &[T])
        ensures
            r@ == self@,
    {
        self.samples.as_slice()
    }

    /// Shifts the window left by `fresh.len()` and appends `fresh` at the
    /// tail; the length does not change.
    pub fn update(&mut self, fresh: &[T])
        requires
            fresh@.len() <= old(self)@.len(),
        ensures
            final(self)@ == shifted(old(self)@, fresh@),
            final(self)@.len() == old(self)@.len(),
    {
        let n = self.samples.len();
        let k = fresh.len();
        let ghost before = self.samples@;
        let mut i: usize = 0;
        while i < n - k
            invariant
                n == before.len(),
                k == fresh@.len(),
                k <= n,
                i <= n - k,
                self.samples@.len() == n,
                forall|j: int| 0 <= j < i ==> self.samples@[j] == before[j + k],
                forall|j: int| i <= j < n ==> self.samples@[j] == before[j],
            decreases n - k - i,
        {
            let x = self.samples[i + k];
            self.samples.set(i, x);
            i = i + 1;
        }
        let mut t: usize = 0;
        while t < k
            invariant
                n == before.len(),
                k == fresh@.len(),
                k <= n,
                t <= k,
                self.samples@.len() == n,
                forall|j: int| 0 <= j < n - k ==> self.samples@[j] == before[j + k],
                forall|j: int| 0 <= j < t ==> self.samples@[n - k + j] == fresh@[j],
            decreases k - t,
        {
            self.samples.set(n - k + t, fresh[t]);
            t = t + 1;
        }
        assert(self.samples@ =~= shifted(before, fresh@));
    }

    /// The leading `1 / divisor` of the window, over which power is
    /// measured.
    pub fn leading(&self, divisor: usize) -> (r: &[T])
        requires
            divisor > 0,
        ensures
            r@ == self@.subrange(0, leading_len(self@.len(), divisor as nat) as int),
    {
        let n = self.samples.len();
        vstd::slice::slice_subrange(self.samples.as_slice(), 0, n / divisor)
    }
}

/// After draining `k <= n` samples into a window of length `n`, the window
/// is the old window's last `n - k` samples followed by the `k` new ones,
/// and its length is still `n`.
pub proof fn lemma_window_shift<T>(old: Seq<T>, fresh: Seq<T>)
    requires
        fresh.len() <= old.len(),
    ensures
        shifted(old, fresh).len() == old.len(),
        forall|j: int|
            0 <= j < old.len() - fresh.len() ==> #[trigger] shifted(old, fresh)[j] == old[j
                + fresh.len()],
        forall|j: int|
            0 <= j < fresh.len() ==> #[trigger] shifted(old, fresh)[old.len() - fresh.len() + j]
                == fresh[j],
{
}

} // verus!
