use vstd::prelude::*;

verus! {

/// One period of audio for one channel: exactly N 32-bit samples, held as the
/// bit patterns of their IEEE-754 values, in order. Bit pattern zero is the
/// sample value zero, so the all-zero frame is digital silence.
#[derive(Clone, Debug, PartialEq, Eq)]
pub struct Frame {
    pub samples: Vec<u32>,
}

impl View for Frame {
    type V = Seq<u32>;

    open spec fn view(&self) -> Seq<u32> {
        self.samples@
    }
}

/// N samples of silence: every bit pattern zero.
pub open spec fn silence_seq(n: nat) -> Seq<u32> {
    Seq::new(n, |i: int| 0u32)
}

impl Frame {
    /// The all-zero frame of length `n`.
    pub fn silence(n: usize) -> (f: Frame)
        ensures
            f@ == silence_seq(n as nat),
    {
        let mut samples: Vec<u32> = Vec::new();
        while samples.len() < n
            invariant
                samples@.len() <= n,
                forall|i: int| 0 <= i < samples@.len() ==> samples@[i] == 0u32,
            decreases n - samples@.len(),
        {
            samples.push(0u32);
        }
        proof {
            assert(samples@ =~= silence_seq(n as nat));
        }
        Frame { samples }
    }

    /// A frame over the given samples.
    pub fn from_samples(samples: Vec<u32>) -> (f: Frame)
        ensures
            f@ == samples@,
    {
        Frame { samples }
    }

    /// Number of samples in the frame.
    pub fn len(&self) -> (n: usize)
        ensures
            n == self@.len(),
    {
        self.samples.len()
    }

    /// A fresh frame holding the same samples.
    pub fn copy_of(&self) -> (f: Frame)
        ensures
            f@ == self@,
    {
        let mut samples: Vec<u32> = Vec::new();
        let mut i: usize = 0;
        while i < self.samples.len()
            invariant
                i <= self@.len(),
                samples@ == self@.subrange(0, i as int),
            decreases self@.len() - i,
        {
            samples.push(self.samples[i]);
            proof {
                assert(samples@ =~= self@.subrange(0, i as int + 1));
            }
            i = i + 1;
        }
        proof {
            assert(samples@ =~= self@);
        }
        Frame { samples }
    }

    /// The bit pattern of sample `i`.
    pub fn sample(&self, i: usize) -> (s: u32)
        requires
            i < self@.len(),
        ensures
            s == self@[i as int],
    {
        self.samples[i]
    }
}

} // verus!
