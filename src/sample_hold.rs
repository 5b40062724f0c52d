use vstd::prelude::*;
use vstd::arithmetic::div_mod::{
    lemma_fundamental_div_mod,
    lemma_fundamental_div_mod_converse_mod,
    lemma_mod_pos_bound,
    lemma_small_mod,
};

verus! {

/// The count after one more sample, when a fresh sample is due every
/// `skip_samples` samples.
pub open spec fn next_count(count: nat, skip_samples: nat) -> nat {
    if count + 1 >= skip_samples {
        0
    } else {
        count + 1
    }
}

/// The count after `k` samples, starting from `count`.
pub open spec fn count_after(count: nat, k: nat, skip_samples: nat) -> nat
    decreases k,
{
    if k == 0 {
        count
    } else {
        next_count(count_after(count, (k - 1) as nat, skip_samples), skip_samples)
    }
}

/// Counting from zero with a fixed `skip_samples`, the count after `k`
/// samples is `k` modulo `skip_samples`, and the `k`-th sample (from one) is
/// taken fresh exactly when `k` is a multiple of `skip_samples`.
pub proof fn lemma_takes_every_skip_samples(k: nat, skip_samples: nat)
    requires
        skip_samples >= 1,
    ensures
        count_after(0, k, skip_samples) == k % skip_samples,
        k >= 1 ==> (count_after(0, (k - 1) as nat, skip_samples) + 1 >= skip_samples <==> k
            % skip_samples == 0),
    decreases k,
{
    if k >= 1 {
        lemma_takes_every_skip_samples((k - 1) as nat, skip_samples);
        let d = skip_samples as int;
        let x = (k - 1) as int;
        let q = x / d;
        let p = x % d;
        lemma_fundamental_div_mod(x, d);
        lemma_mod_pos_bound(x, d);
        assert(d * q == q * d) by (nonlinear_arith);
        if p + 1 >= d {
            assert(k == (q + 1) * d + 0) by (nonlinear_arith)
                requires
                    x == q * d + p,
                    p + 1 == d,
                    k == x + 1,
            ;
            lemma_fundamental_div_mod_converse_mod(k as int, d, q + 1, 0);
        } else {
            lemma_fundamental_div_mod_converse_mod(k as int, d, q, p + 1);
        }
    } else {
        lemma_small_mod(0, skip_samples);
    }
}

/// The clock of a sample-rate reducer: it counts the input samples since a
/// fresh sample was last taken, and says when the next one is due. Between
/// two fresh samples the reducer repeats the last one.
pub struct HoldCounter {
    samples_since_last_crush: u32,
}

impl HoldCounter {
    #[verifier::type_invariant]
    spec fn below_max(self) -> bool {
        self.samples_since_last_crush < u32::MAX
    }

    /// The samples counted since a fresh one was taken.
    pub closed spec fn count(self) -> nat {
        self.samples_since_last_crush as nat
    }

    pub fn new() -> (r: Self)
        ensures
            r.count() == 0,
    {
        HoldCounter { samples_since_last_crush: 0 }
    }

    /// Counts one input sample; returns whether a fresh sample is due, which
    /// is when `skip_samples` samples have been counted. The count then
    /// starts again from zero.
    pub fn tick(&mut self, skip_samples: u32) -> (take: bool)
        ensures
            take == (old(self).count() + 1 >= skip_samples),
            final(self).count() == next_count(old(self).count(), skip_samples as nat),
    {
        proof {
            use_type_invariant(&*self);
        }
        let next = self.samples_since_last_crush + 1;
        if next >= skip_samples {
            self.samples_since_last_crush = 0;
            true
        } else {
            self.samples_since_last_crush = next;
            false
        }
    }

    /// Starts the count again from zero.
    pub fn reset(&mut self)
        ensures
            final(self).count() == 0,
    {
        self.samples_since_last_crush = 0;
    }
}

} // verus!
