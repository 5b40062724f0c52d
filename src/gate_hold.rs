use vstd::prelude::*;

verus! {

/// The state of a gate's open/closed decision after one more sample:
/// `(open, remaining)` where `remaining` counts the samples a gate may still
/// stay open with the level below the threshold. A sample above the threshold
/// opens it and restarts the hold time; a sample below it uses up one
/// sample of the hold time, and a gate closes when none is left.
pub open spec fn next_hold_state(open: bool, remaining: nat, above: bool, hold_samples: nat) -> (
    bool,
    nat,
) {
    if above {
        (true, hold_samples)
    } else if !open {
        (open, remaining)
    } else if remaining > 1 {
        (true, (remaining - 1) as nat)
    } else {
        (false, 0)
    }
}

/// The state after each sample of `above` (whether its level exceeds the
/// threshold), first to last.
pub open spec fn run_hold_states(
    open: bool,
    remaining: nat,
    above: Seq<bool>,
    hold_samples: nat,
) -> (bool, nat)
    decreases above.len(),
{
    if above.len() == 0 {
        (open, remaining)
    } else {
        let (o, r) = run_hold_states(open, remaining, above.drop_last(), hold_samples);
        next_hold_state(o, r, above.last(), hold_samples)
    }
}

/// Once a gate has been opened with a hold time of `hold_samples` samples, it
/// stays open through the first `hold_samples - 1` samples below the threshold
/// and is closed after the next one.
pub proof fn lemma_gate_holds_then_closes(open: bool, remaining: nat, hold_samples: nat, k: nat)
    requires
        hold_samples >= 1,
    ensures
        ({
            let (o, r) = next_hold_state(open, remaining, true, hold_samples);
            let after = run_hold_states(o, r, Seq::new(k, |_i: int| false), hold_samples);
            after.0 == (k < hold_samples) && (k < hold_samples ==> after.1 == hold_samples - k)
        }),
    decreases k,
{
    let (o, r) = next_hold_state(open, remaining, true, hold_samples);
    let below = Seq::new(k, |_i: int| false);
    if k > 0 {
        lemma_gate_holds_then_closes(open, remaining, hold_samples, (k - 1) as nat);
        assert(below.drop_last() =~= Seq::new((k - 1) as nat, |_i: int| false));
        if k >= hold_samples {
            let prev = run_hold_states(o, r, below.drop_last(), hold_samples);
            if k - 1 >= hold_samples {
                assert(!prev.0);
            }
        }
    }
}

/// The open/closed decision of a noise gate with a hold time: a gate opens
/// as soon as the level exceeds the threshold and closes only once the level
/// has stayed below it for the whole hold time, so that a level hovering near
/// the threshold does not make it chatter.
pub struct GateHold {
    is_gate_open: bool,
    hold_counter: u32,
}

impl GateHold {
    /// Whether it is open.
    pub closed spec fn open(self) -> bool {
        self.is_gate_open
    }

    /// The samples it may still stay open with the level below the
    /// threshold.
    pub closed spec fn remaining(self) -> nat {
        self.hold_counter as nat
    }

    /// A closed gate.
    pub fn new() -> (r: Self)
        ensures
            !r.open(),
            r.remaining() == 0,
    {
        GateHold { is_gate_open: false, hold_counter: 0 }
    }

    pub fn is_open(&self) -> (r: bool)
        ensures
            r == self.open(),
    {
        self.is_gate_open
    }

    /// Takes one sample's decision: `above` tells whether the level exceeds
    /// the threshold, `hold_samples` is the hold time in samples.
    pub fn step(&mut self, above: bool, hold_samples: u32)
        ensures
            (final(self).open(), final(self).remaining()) == next_hold_state(
                old(self).open(),
                old(self).remaining(),
                above,
                hold_samples as nat,
            ),
    {
        if above {
            self.is_gate_open = true;
            self.hold_counter = hold_samples;
        } else if self.is_gate_open {
            if self.hold_counter > 1 {
                self.hold_counter = self.hold_counter - 1;
            } else {
                self.is_gate_open = false;
                self.hold_counter = 0;
            }
        }
    }
}

} // verus!
