//! Diagnostic taps that record what is played, for writing out as WAV.
//!
//! The live capture records the limited live mix just before it enters the output
//! ring; the output capture records what the device callback handed to the device.
//! Both have a fixed size chosen when they are armed and never grow past it, since
//! allocating on the audio threads would itself interrupt the sound. Samples are the
//! bit patterns of interleaved stereo `f32` values; writing the file lies outside.
use vstd::prelude::*;

verus! {

/// The live mix, recorded block by block until it is written out once.
pub struct LiveCapture {
    samples: Vec<u32>,
    limit: usize,
    first_clock: Option<u64>,
    truncated: bool,
    minimum_frames: usize,
    written: bool,
}

/// What a stop means for the live capture.
#[derive(Clone, Copy, Debug, PartialEq, Eq, Structural)]
pub enum StopDecision {
    /// Keep recording: fewer than the requested minimum of frames were recorded.
    Continue { frames: usize },
    /// The capture is finished; what [`LiveCapture::finish`] answered follows.
    Finish { write: bool },
}

impl LiveCapture {
    #[verifier::type_invariant]
    spec fn within_limit(self) -> bool {
        self.samples@.len() <= self.limit
    }

    /// The samples recorded so far.
    pub closed spec fn recorded(self) -> Seq<u32> {
        self.samples@
    }

    /// How many samples the capture holds at most.
    pub closed spec fn sample_limit(self) -> nat {
        self.limit as nat
    }

    /// The clock of the first recorded block.
    pub closed spec fn start_clock(self) -> Option<u64> {
        self.first_clock
    }

    /// Whether a block did not fit.
    pub closed spec fn was_truncated(self) -> bool {
        self.truncated
    }

    /// The frames a stop must have seen recorded before it writes out.
    pub closed spec fn stop_minimum(self) -> nat {
        self.minimum_frames as nat
    }

    pub closed spec fn is_written(self) -> bool {
        self.written
    }

    /// An armed capture of at most `limit` samples, written out on a stop once
    /// `minimum_frames` frames were recorded.
    pub fn new(limit: usize, minimum_frames: usize) -> (capture: LiveCapture)
        ensures
            capture.recorded().len() == 0,
            capture.sample_limit() == limit,
            capture.start_clock() is None,
            !capture.was_truncated(),
            capture.stop_minimum() == minimum_frames,
            !capture.is_written(),
    {
        LiveCapture {
            samples: Vec::new(),
            limit,
            first_clock: None,
            truncated: false,
            minimum_frames,
            written: false,
        }
    }

    /// Records a block rendered at `clock_samples`, as much of it as fits. Answers
    /// whether the capture became full with this block, which is worth a log line.
    pub fn push(&mut self, block: &[u32], clock_samples: u64) -> (became_full: bool)
        ensures
            old(self).is_written() ==> *final(self) == *old(self) && !became_full,
            !old(self).is_written() ==> {
                let room = (old(self).sample_limit() - old(self).recorded().len()) as nat;
                let take = if block@.len() <= room {
                    block@.len()
                } else {
                    room
                };
                &&& final(self).recorded() == old(self).recorded() + block@.take(take as int)
                &&& final(self).start_clock() == (if old(self).start_clock() is None {
                    Some(clock_samples)
                } else {
                    old(self).start_clock()
                })
                &&& final(self).was_truncated() == (old(self).was_truncated() || take
                    < block@.len())
                &&& became_full == (!old(self).was_truncated() && take < block@.len())
                &&& final(self).sample_limit() == old(self).sample_limit()
                &&& final(self).stop_minimum() == old(self).stop_minimum()
                &&& !final(self).is_written()
            },
    {
        proof {
            use_type_invariant(&*self);
        }
        if self.written {
            return false;
        }
        if self.first_clock.is_none() {
            self.first_clock = Some(clock_samples);
        }
        let room = self.limit - self.samples.len();
        let take = if block.len() <= room {
            block.len()
        } else {
            room
        };
        let mut samples: Vec<u32> = Vec::new();
        std::mem::swap(&mut samples, &mut self.samples);
        let ghost before = samples@;
        let mut i: usize = 0;
        while i < take
            invariant
                0 <= i <= take <= block@.len(),
                samples@ == before + block@.take(i as int),
            decreases take - i,
        {
            samples.push(block[i]);
            assert(block@.take(i + 1) =~= block@.take(i as int).push(block@[i as int]));
            i = i + 1;
        }
        self.samples = samples;
        let became_full = take < block.len() && !self.truncated;
        if take < block.len() {
            self.truncated = true;
        }
        became_full
    }

    /// Decides what a stop of the playback does: the capture is finished unless
    /// fewer than the requested minimum of frames were recorded.
    pub fn finish_on_stop(&mut self) -> (decision: StopDecision)
        ensures
            old(self).recorded().len() / 2 < old(self).stop_minimum() ==> decision == (
            StopDecision::Continue { frames: (old(self).recorded().len() / 2) as usize })
                && *final(self) == *old(self),
            old(self).recorded().len() / 2 >= old(self).stop_minimum() ==> decision == (
            StopDecision::Finish { write: !old(self).is_written() && old(self).recorded().len() > 0 })
                && final(self).is_written() == (old(self).is_written() || old(self).recorded().len()
                > 0) && final(self).recorded() == old(self).recorded(),
    {
        let frames = self.samples.len() / 2;
        if frames < self.minimum_frames {
            return StopDecision::Continue { frames };
        }
        StopDecision::Finish { write: self.finish() }
    }

    /// Finishes the capture: answers whether the recorded samples are to be written
    /// out now. That is once, and only when something was recorded.
    pub fn finish(&mut self) -> (write: bool)
        ensures
            write == (!old(self).is_written() && old(self).recorded().len() > 0),
            final(self).is_written() == (old(self).is_written() || old(self).recorded().len() > 0),
            final(self).recorded() == old(self).recorded(),
            final(self).start_clock() == old(self).start_clock(),
            final(self).was_truncated() == old(self).was_truncated(),
            final(self).sample_limit() == old(self).sample_limit(),
            final(self).stop_minimum() == old(self).stop_minimum(),
    {
        proof {
            use_type_invariant(&*self);
        }
        if self.written || self.samples.len() == 0 {
            return false;
        }
        self.written = true;
        true
    }

    pub fn samples(&self) -> (samples: &Vec<u32>)
        ensures
            samples@ == self.recorded(),
    {
        &self.samples
    }

    pub fn first_clock(&self) -> (clock: Option<u64>)
        ensures
            clock == self.start_clock(),
    {
        self.first_clock
    }

    pub fn truncated(&self) -> (truncated: bool)
        ensures
            truncated == self.was_truncated(),
    {
        self.truncated
    }

    pub fn written(&self) -> (written: bool)
        ensures
            written == self.is_written(),
    {
        self.written
    }
}

/// The frames the device played, from the first one of a playback on, handed off
/// for writing once the capture is full.
pub struct OutputCapture {
    samples: Vec<u32>,
    limit: usize,
    started: bool,
    sent: bool,
}

impl OutputCapture {
    #[verifier::type_invariant]
    spec fn below_limit(self) -> bool {
        &&& self.limit % 2 == 0
        &&& self.samples@.len() % 2 == 0
        &&& !self.sent ==> self.samples@.len() < self.limit
    }

    pub closed spec fn recorded(self) -> Seq<u32> {
        self.samples@
    }

    pub closed spec fn sample_limit(self) -> nat {
        self.limit as nat
    }

    pub closed spec fn has_started(self) -> bool {
        self.started
    }

    pub closed spec fn was_sent(self) -> bool {
        self.sent
    }

    /// A capture of `frames` frames; at least one.
    pub fn new(frames: usize) -> (capture: OutputCapture)
        requires
            0 < frames,
            frames * 2 <= usize::MAX,
        ensures
            capture.recorded().len() == 0,
            capture.sample_limit() == frames * 2,
            !capture.has_started(),
            !capture.was_sent(),
    {
        OutputCapture { samples: Vec::new(), limit: frames * 2, started: false, sent: false }
    }

    /// Records one frame handed to the device; `playing` says whether the output
    /// played then. Recording starts at the first playing frame and then takes every
    /// frame, silent ones too. When the capture is full its samples come back, once,
    /// to be written out.
    pub fn record(&mut self, playing: bool, left: u32, right: u32) -> (full: Option<Vec<u32>>)
        ensures
            old(self).was_sent() || (!old(self).has_started() && !playing) ==> *final(self) == *old(
                self,
            ) && full is None,
            !old(self).was_sent() && (old(self).has_started() || playing) ==> {
                let grown = old(self).recorded().push(left).push(right);
                &&& final(self).has_started()
                &&& final(self).sample_limit() == old(self).sample_limit()
                &&& if grown.len() >= old(self).sample_limit() {
                    &&& full matches Some(samples) && samples@ == grown
                    &&& final(self).was_sent()
                    &&& final(self).recorded().len() == 0
                } else {
                    &&& full is None
                    &&& !final(self).was_sent()
                    &&& final(self).recorded() == grown
                }
            },
    {
        proof {
            use_type_invariant(&*self);
        }
        if self.sent {
            return None;
        }
        if !self.started {
            if !playing {
                return None;
            }
            self.started = true;
        }
        let mut samples: Vec<u32> = Vec::new();
        std::mem::swap(&mut samples, &mut self.samples);
        samples.push(left);
        samples.push(right);
        if samples.len() >= self.limit {
            self.sent = true;
            return Some(samples);
        }
        self.samples = samples;
        None
    }

    pub fn samples(&self) -> (samples: &Vec<u32>)
        ensures
            samples@ == self.recorded(),
    {
        &self.samples
    }
}

} // verus!
