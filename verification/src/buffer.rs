//! The audio-buffer bridge: the per-call view of host-provided channel data.
//!
//! The host hands the processing entry points raw arrays of per-channel
//! sample pointers and a frame count.  The unverified shim turns those into
//! an [`AudioBuffer`], whose channels are plain vectors of samples; the
//! sample type is the raw bit pattern of the host's floating-point samples
//! (`u32` for single precision, `u64` for double precision), so copying a
//! sample here is exactly the bitwise copy the protocol performs.

use vstd::prelude::*;

verus! {

/// Paired input and output channels for one processing call.  Channel `i` of
/// `inputs` is processed into channel `i` of `outputs`; every channel holds
/// exactly `samples` frames.
pub struct AudioBuffer<T> {
    /// Input channels, each `samples` frames long.
    pub inputs: Vec<Vec<T>>,
    /// Output channels, each `samples` frames long.
    pub outputs: Vec<Vec<T>>,
    /// The frame count the host passed for this call.
    pub samples: usize,
}

impl<T: Copy> AudioBuffer<T> {
    /// Every channel on both sides holds exactly `samples` frames.
    pub open spec fn well_formed(&self) -> bool {
        &&& forall|i: int|
            0 <= i < self.inputs@.len() ==> (#[trigger] self.inputs@[i])@.len() == self.samples
        &&& forall|i: int|
            0 <= i < self.outputs@.len() ==> (#[trigger] self.outputs@[i])@.len() == self.samples
    }

    /// How many input/output channel pairs the buffer exposes when iterated:
    /// the shorter of the two sides.
    pub open spec fn pair_count(&self) -> int {
        if self.inputs@.len() < self.outputs@.len() {
            self.inputs@.len() as int
        } else {
            self.outputs@.len() as int
        }
    }

    /// Wrap the channels the host supplied for one call.
    pub fn new(inputs: Vec<Vec<T>>, outputs: Vec<Vec<T>>, samples: usize) -> (r: AudioBuffer<T>)
        requires
            forall|i: int| 0 <= i < inputs@.len() ==> (#[trigger] inputs@[i])@.len() == samples,
            forall|i: int| 0 <= i < outputs@.len() ==> (#[trigger] outputs@[i])@.len() == samples,
        ensures
            r.inputs == inputs,
            r.outputs == outputs,
            r.samples == samples,
            r.well_formed(),
    {
        AudioBuffer { inputs, outputs, samples }
    }

    /// Copy every input channel sample-for-sample into its paired output
    /// channel: the reference behaviour of a plugin that does not override
    /// processing.  Output channels beyond the paired range are untouched.
    pub fn passthrough(&mut self)
        requires
            old(self).well_formed(),
        ensures
            final(self).well_formed(),
            final(self).inputs == old(self).inputs,
            final(self).samples == old(self).samples,
            final(self).outputs@.len() == old(self).outputs@.len(),
            forall|c: int|
                0 <= c < final(self).pair_count() ==> (#[trigger] final(self).outputs@[c])@
                    == final(self).inputs@[c]@,
            forall|c: int|
                final(self).pair_count() <= c < final(self).outputs@.len()
                    ==> final(self).outputs@[c] == old(self).outputs@[c],
    {
        let pairs: usize = if self.inputs.len() < self.outputs.len() {
            self.inputs.len()
        } else {
            self.outputs.len()
        };
        let mut c: usize = 0;
        while c < pairs
            invariant
                c <= pairs,
                pairs == self.pair_count(),
                self.well_formed(),
                self.inputs == old(self).inputs,
                self.samples == old(self).samples,
                self.outputs@.len() == old(self).outputs@.len(),
                forall|k: int|
                    0 <= k < c ==> (#[trigger] self.outputs@[k])@ == self.inputs@[k]@,
                forall|k: int|
                    c <= k < self.outputs@.len() ==> self.outputs@[k] == old(self).outputs@[k],
            decreases pairs - c,
        {
            let mut channel: Vec<T> = Vec::new();
            let mut j: usize = 0;
            while j < self.samples
                invariant
                    j <= self.samples,
                    c < self.pair_count(),
                    self.well_formed(),
                    channel@ =~= self.inputs@[c as int]@.subrange(0, j as int),
                decreases self.samples - j,
            {
                channel.push(self.inputs[c][j]);
                j += 1;
            }
            proof {
                assert(channel@ =~= self.inputs@[c as int]@);
            }
            self.outputs.set(c, channel);
            c += 1;
        }
    }
}

} // verus!
