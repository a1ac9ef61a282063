use vstd::prelude::*;
use crate::error::TransformError;

verus! {

/// Number of channels of every signal: one, mono.
pub const CHANNELS: u16 = 1;

/// A mono signal: its samples in time order, and how many of them make one
/// second. Once made, a signal does not change.
#[derive(Debug, PartialEq, Eq)]
pub struct Signal {
    samples: Vec<i16>,
    sample_rate: u32,
}

impl View for Signal {
    type V = Seq<i16>;

    /// The samples, in time order.
    closed spec fn view(&self) -> Seq<i16> {
        self.samples@
    }
}

/// The `n` samples of `samples` that begin at `start`, in order.
pub open spec fn window_of(samples: Seq<i16>, start: int, n: int) -> Seq<i16>
    recommends
        0 <= start,
        0 <= n,
        start + n <= samples.len(),
{
    samples.subrange(start, start + n)
}

impl Clone for Signal {
    fn clone(&self) -> (copy: Signal)
        ensures
            copy@ == self@,
            copy.rate() == self.rate(),
    {
        proof {
            use_type_invariant(self);
        }
        Signal { samples: self.samples.clone(), sample_rate: self.sample_rate }
    }
}

impl Signal {
    #[verifier::type_invariant]
    spec fn rate_is_positive(&self) -> bool {
        self.sample_rate > 0
    }

    /// Samples per second.
    pub closed spec fn rate(&self) -> nat {
        self.sample_rate as nat
    }

    /// The signal that holds `samples` at `sample_rate` samples per second.
    pub fn new(sample_rate: u32, samples: Vec<i16>) -> (signal: Signal)
        requires
            sample_rate > 0,
        ensures
            signal@ == samples@,
            signal.rate() == sample_rate,
    {
        Signal { samples, sample_rate }
    }

    /// How many samples the signal holds.
    pub fn len(&self) -> (count: usize)
        ensures
            count == self@.len(),
    {
        self.samples.len()
    }

    /// Samples per second: never zero.
    pub fn sample_rate(&self) -> (rate: u32)
        ensures
            rate == self.rate(),
            rate > 0,
    {
        proof {
            use_type_invariant(self);
        }
        self.sample_rate
    }

    /// Number of channels: always `CHANNELS`.
    pub fn channels(&self) -> (count: u16)
        ensures
            count == CHANNELS,
    {
        CHANNELS
    }

    /// The samples, in time order.
    pub fn samples(&self) -> (samples: &Vec<i16>)
        ensures
            samples@ == self@,
    {
        &self.samples
    }

    /// The `n` samples that a transform of size `n` reads when it begins at
    /// `start`: those at `start`, `start + 1`, and so on, in order.
    ///
    /// The signal has to hold all of them. A window that reaches past its
    /// end is refused, also where `start + n` is more than a `usize` holds.
    /// An empty window inside the signal is no error.
    pub fn window(&self, start: usize, n: usize) -> (result: Result<Vec<i16>, TransformError>)
        ensures
            match result {
                Ok(block) => {
                    &&& start + n <= self@.len()
                    &&& block@ == window_of(self@, start as int, n as int)
                    &&& block@.len() == n
                },
                Err(e) => start + n > self@.len() && e == TransformError::WindowOutOfRange,
            },
    {
        let len: usize = self.samples.len();
        if start > len || n > len - start {
            return Err(TransformError::WindowOutOfRange);
        }
        let mut block: Vec<i16> = Vec::with_capacity(n);
        let mut i: usize = 0;
        while i < n
            invariant
                i <= n,
                len == self.samples@.len(),
                start + n <= len,
                block@ == self.samples@.subrange(start as int, start + i),
            decreases n - i,
        {
            block.push(self.samples[start + i]);
            i += 1;
        }
        Ok(block)
    }
}

} // verus!
