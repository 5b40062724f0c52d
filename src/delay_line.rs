use vstd::prelude::*;

verus! {

/// What a delay line holds once `sample` has been written: the oldest sample
/// leaves and `sample` becomes the newest.
pub open spec fn after_write<T>(history: Seq<T>, sample: T) -> Seq<T> {
    history.drop_first().push(sample)
}

/// What a delay line holds after each sample of `samples` has been written,
/// first to last.
pub open spec fn after_writes<T>(history: Seq<T>, samples: Seq<T>) -> Seq<T>
    decreases samples.len(),
{
    if samples.len() == 0 {
        history
    } else {
        after_write(after_writes(history, samples.drop_last()), samples.last())
    }
}

/// The delay that a read at `delay` actually uses: at most the capacity less one.
pub open spec fn clamped_delay(capacity: nat, delay: nat) -> nat {
    if delay < capacity {
        delay
    } else {
        (capacity - 1) as nat
    }
}

/// The sample that a read at `delay` returns from `history` (oldest first):
/// the one written `delay` writes ago, the delay clamped to the capacity.
pub open spec fn delayed<T>(history: Seq<T>, delay: nat) -> T {
    history[history.len() - 1 - clamped_delay(history.len(), delay)]
}

/// Writing keeps the number of samples held: after the writes, a line holds
/// the last `history.len()` samples of `history` followed by `samples`.
pub proof fn lemma_after_writes_window<T>(history: Seq<T>, samples: Seq<T>)
    requires
        history.len() > 0,
    ensures
        after_writes(history, samples) == (history + samples).subrange(
            samples.len() as int,
            (history.len() + samples.len()) as int,
        ),
    decreases samples.len(),
{
    if samples.len() == 0 {
        assert((history + samples).subrange(0, history.len() as int) =~= history);
    } else {
        let prefix = samples.drop_last();
        lemma_after_writes_window(history, prefix);
        assert(after_writes(history, samples) =~= (history + samples).subrange(
            samples.len() as int,
            (history.len() + samples.len()) as int,
        ));
    }
}

/// Writing `v0 .. vn` and then reading at a delay `d` that is below the
/// capacity and below the number of samples written returns `v(n - d)`.
pub proof fn lemma_read_after_writes<T>(history: Seq<T>, samples: Seq<T>, d: nat)
    requires
        history.len() > 0,
        d < history.len(),
        d < samples.len(),
    ensures
        delayed(after_writes(history, samples), d) == samples[samples.len() - 1 - d],
{
    lemma_after_writes_window(history, samples);
}

/// Once cleared, a line reads silence at every delay.
pub proof fn lemma_cleared_reads_silence<T>(capacity: nat, silence: T, d: nat)
    requires
        capacity > 0,
    ensures
        delayed(Seq::new(capacity, |_i: int| silence), d) == silence,
{
}

/// A circular buffer of samples with a write cursor. The capacity is fixed at
/// construction; a read names a delay in samples, counted back from the most
/// recent write.
pub struct DelayLine<T> {
    buffer: Vec<T>,
    write_head: usize,
    max_delay_samples: usize,
    silence: T,
}

impl<T> DelayLine<T> {
    /// The capacity is positive, the buffer holds that many samples and the
    /// cursor lies within it.
    pub closed spec fn wf(&self) -> bool {
        &&& self.max_delay_samples > 0
        &&& self.buffer@.len() == self.max_delay_samples
        &&& self.write_head < self.max_delay_samples
    }

    /// The samples held, oldest first; the last one is the most recent write.
    pub closed spec fn history(&self) -> Seq<T> {
        self.buffer@.subrange(self.write_head as int, self.buffer@.len() as int)
            + self.buffer@.subrange(0, self.write_head as int)
    }

    /// The value that the line holds where nothing has been written.
    pub closed spec fn silence(&self) -> T {
        self.silence
    }

    /// The number of samples the line holds.
    pub closed spec fn capacity(&self) -> nat {
        self.max_delay_samples as nat
    }

    /// A well-formed line holds exactly `capacity()` samples, at least one.
    pub proof fn lemma_history_len(&self)
        requires
            self.wf(),
        ensures
            self.history().len() == self.capacity(),
            self.capacity() > 0,
    {
    }
}

impl<T: Copy> DelayLine<T> {
    /// A line of `max_delay_samples` samples, all silent: silence is the
    /// default value of the sample type, zero for numbers.
    pub fn new(max_delay_samples: usize) -> (r: Self)
        where T: Default,
        requires
            max_delay_samples > 0,
        ensures
            r.wf(),
            r.capacity() == max_delay_samples,
            r.history().len() == r.capacity(),
            r.capacity() > 0,
            call_ensures(T::default, (), r.silence()),
            r.history() == Seq::new(max_delay_samples as nat, |_i: int| r.silence()),
    {
        let silence = T::default();
        let mut buffer: Vec<T> = Vec::with_capacity(max_delay_samples);
        let mut i: usize = 0;
        while i < max_delay_samples
            invariant
                i <= max_delay_samples,
                buffer@ == Seq::new(i as nat, |_j: int| silence),
            decreases max_delay_samples - i,
        {
            buffer.push(silence);
            i = i + 1;
        }
        let r = DelayLine { buffer, write_head: 0, max_delay_samples, silence };
        assert(r.history() =~= Seq::new(max_delay_samples as nat, |_i: int| r.silence()));
        r
    }

    /// The number of samples the line holds.
    pub fn max_delay_samples(&self) -> (r: usize)
        requires
            self.wf(),
        ensures
            r == self.capacity(),
            r > 0,
            self.history().len() == self.capacity(),
    {
        self.max_delay_samples
    }

    /// Stores `sample` at the cursor and advances the cursor.
    pub fn write(&mut self, sample: T)
        requires
            old(self).wf(),
        ensures
            final(self).wf(),
            final(self).capacity() == old(self).capacity(),
            final(self).silence() == old(self).silence(),
            final(self).history().len() == final(self).capacity(),
            final(self).capacity() > 0,
            final(self).history() == after_write(old(self).history(), sample),
    {
        let ghost h = self.history();
        let ghost b = self.buffer@;
        let wh = self.write_head;
        self.buffer.set(wh, sample);
        let next = if wh + 1 == self.max_delay_samples {
            0
        } else {
            wh + 1
        };
        self.write_head = next;
        assert(self.history() =~= after_write(h, sample));
    }

    /// The sample written `delay_samples` writes ago (zero: the most recent
    /// one); a delay beyond the capacity reads the oldest sample held.
    pub fn read(&self, delay_samples: usize) -> (r: T)
        requires
            self.wf(),
        ensures
            self.history().len() == self.capacity(),
            self.capacity() > 0,
            r == delayed(self.history(), delay_samples as nat),
    {
        let max = self.max_delay_samples;
        let d = if delay_samples < max {
            delay_samples
        } else {
            max - 1
        };
        let wh = self.write_head;
        let index = if d < wh {
            wh - 1 - d
        } else {
            max - 1 - (d - wh)
        };
        self.buffer[index]
    }

    /// Silences every sample and returns the cursor to the origin: the line
    /// then holds the default value of the sample type throughout, as a new
    /// line does.
    pub fn clear(&mut self)
        where T: Default,
        requires
            old(self).wf(),
        ensures
            final(self).wf(),
            final(self).capacity() == old(self).capacity(),
            final(self).history().len() == final(self).capacity(),
            final(self).capacity() > 0,
            call_ensures(T::default, (), final(self).silence()),
            final(self).history() == Seq::new(final(self).capacity(), |_i: int| final(self).silence()),
    {
        let n = self.max_delay_samples;
        let s = T::default();
        self.silence = s;
        self.write_head = 0;
        let mut i: usize = 0;
        while i < n
            invariant
                i <= n,
                n == self.max_delay_samples,
                s == self.silence,
                self.write_head == 0,
                self.buffer@.len() == n,
                forall|j: int| 0 <= j < i ==> self.buffer@[j] == s,
            decreases n - i,
        {
            self.buffer.set(i, s);
            i = i + 1;
        }
        assert(self.history() =~= Seq::new(n as nat, |_i: int| s));
    }
}

} // verus!
