//! The render-ahead buffer between the player's worker and the audio device.
//!
//! Every stereo frame is tagged with the generation it was rendered for. When the
//! player starts a new generation, frames of older ones are skipped on the way out,
//! so that a stop or a new song takes effect at once, while frames of the current
//! generation always play in the order they were rendered. Samples travel as the
//! bit patterns of their `f32` values; the device conversion lies outside.
use vstd::prelude::*;

verus! {

/// The render-ahead depth at start, in multiples of the device buffer.
pub const DEFAULT_BUFFER_MULTIPLIER: u8 = 4;

/// The deepest render-ahead allowed; the ring is sized for it.
pub const MAX_BUFFER_MULTIPLIER: usize = 8;

/// The bit pattern of `0.0f32`, written for the missing right sample of an odd chunk.
pub const SILENT_SAMPLE_BITS: u32 = 0;

/// Render-ahead depths the output accepts.
pub open spec fn is_supported_multiplier(multiplier: int) -> bool {
    multiplier == 1 || multiplier == 2 || multiplier == 4 || multiplier == 8
}

pub open spec fn multiplier_error_text() -> Seq<char> {
    "live buffer multiplier must be 1, 2, 4, or 8"@
}

/// One stereo frame and the generation it was rendered for.
#[derive(Clone, Copy, Debug, PartialEq, Eq, Structural)]
pub struct TaggedStereoFrame {
    pub generation: u64,
    pub left_bits: u32,
    pub right_bits: u32,
}

/// The frames of an interleaved stereo chunk; an odd last sample gets a silent right.
pub open spec fn chunk_frames(generation: u64, samples: Seq<u32>) -> Seq<TaggedStereoFrame> {
    Seq::new(
        ((samples.len() + 1) / 2) as nat,
        |i: int|
            TaggedStereoFrame {
                generation,
                left_bits: samples[2 * i],
                right_bits: if 2 * i + 1 < samples.len() {
                    samples[2 * i + 1]
                } else {
                    SILENT_SAMPLE_BITS
                },
            },
    )
}

/// How far a chunk got into the ring.
#[derive(Clone, Copy, Debug, PartialEq, Eq, Structural)]
pub enum ChunkPush {
    /// Every frame is in the ring.
    Complete,
    /// The chunk belongs to a generation that is no longer played, or the output
    /// was shut down: the rest is dropped.
    Stale,
    /// The ring is full; push again from `next_frame` once the device has read.
    Full { next_frame: usize },
}

/// The output: the ring of frames and what the player told it.
pub struct AudioOutput {
    frames: Vec<TaggedStereoFrame>,
    capacity: usize,
    generation: u64,
    active: bool,
    shutdown: bool,
    multiplier: u8,
    buffer_frames: usize,
    underrun_frames: u64,
}

/// The ring's part of [`AudioOutput::push_chunk`], on the ring and the controls it reads.
fn push_frames(
    frames: &mut Vec<TaggedStereoFrame>,
    capacity: usize,
    current: u64,
    shutdown: bool,
    generation: u64,
    samples: &Vec<u32>,
    from_frame: usize,
) -> (outcome: ChunkPush)
    requires
        old(frames)@.len() <= capacity,
        from_frame <= chunk_frames(generation, samples@).len(),
    ensures
        ({
            let all = chunk_frames(generation, samples@);
            let room = (capacity - old(frames)@.len()) as nat;
            let left = (all.len() - from_frame) as nat;
            let pushed: nat = if left == 0 {
                0
            } else if current != generation {
                if room > 0 {
                    1
                } else {
                    0
                }
            } else if left <= room {
                left
            } else {
                room
            };
            &&& final(frames)@ == old(frames)@ + all.subrange(from_frame as int, from_frame + pushed)
            &&& outcome == (if left == 0 {
                ChunkPush::Complete
            } else if current != generation {
                ChunkPush::Stale
            } else if from_frame + pushed == all.len() {
                ChunkPush::Complete
            } else if shutdown {
                ChunkPush::Stale
            } else {
                ChunkPush::Full { next_frame: (from_frame + pushed) as usize }
            })
        }),
        final(frames)@.len() <= capacity,
{
    let ghost all = chunk_frames(generation, samples@);
    let ghost start = frames@;
    let n: usize = samples.len();
    let total: usize = n / 2 + n % 2;
    assert(total == all.len());
    let mut i: usize = from_frame;
    while i < total
        invariant
            from_frame <= i <= total,
            n == samples@.len(),
            total == n / 2 + n % 2,
            total == all.len(),
            all == chunk_frames(generation, samples@),
            frames@ == start + all.subrange(from_frame as int, i as int),
            start == old(frames)@,
            start.len() <= capacity,
            frames@.len() <= capacity,
            current == generation || i == from_frame,
        decreases total - i,
    {
        if frames.len() >= capacity {
            assert(frames@.len() == start.len() + (i - from_frame));
            assert(i - from_frame == capacity - start.len());
            if shutdown || current != generation {
                return ChunkPush::Stale;
            }
            return ChunkPush::Full { next_frame: i };
        }
        assert(i + i < n) by (nonlinear_arith)
            requires
                i < total,
                total == n / 2 + n % 2,
        ;
        let at: usize = i + i;
        let left = samples[at];
        let right = if at + 1 < samples.len() {
            samples[at + 1]
        } else {
            SILENT_SAMPLE_BITS
        };
        frames.push(TaggedStereoFrame { generation, left_bits: left, right_bits: right });
        assert(all[i as int] == TaggedStereoFrame { generation, left_bits: left, right_bits: right });
        assert(all.subrange(from_frame as int, i + 1) =~= all.subrange(from_frame as int, i as int).push(
            all[i as int],
        ));
        if current != generation {
            return ChunkPush::Stale;
        }
        i = i + 1;
    }
    ChunkPush::Complete
}

/// Whether `frames[i]` is the first frame of generation `current`.
pub open spec fn first_current(frames: Seq<TaggedStereoFrame>, current: u64, i: int) -> bool {
    &&& 0 <= i < frames.len()
    &&& frames[i].generation == current
    &&& forall|j: int| 0 <= j < i ==> #[trigger] frames[j].generation != current
}

/// Whether no frame belongs to generation `current`.
pub open spec fn none_current(frames: Seq<TaggedStereoFrame>, current: u64) -> bool {
    forall|j: int| 0 <= j < frames.len() ==> #[trigger] frames[j].generation != current
}

/// Drops frames of other generations from the front and takes the first frame of
/// generation `current`, if there is one.
fn pop_current(frames: &mut Vec<TaggedStereoFrame>, current: u64) -> (frame: Option<(u32, u32)>)
    ensures
        match frame {
            Some((left, right)) => exists|i: int|
                first_current(old(frames)@, current, i) && final(frames)@ == old(frames)@.skip(i + 1)
                    && left == old(frames)@[i].left_bits && right == old(frames)@[i].right_bits,
            None => none_current(old(frames)@, current) && final(frames)@.len() == 0,
        },
{
    let ghost start = frames@;
    let ghost mut dropped: int = 0;
    while frames.len() > 0
        invariant
            0 <= dropped <= start.len(),
            start == old(frames)@,
            frames@ == start.skip(dropped),
            forall|j: int| 0 <= j < dropped ==> #[trigger] start[j].generation != current,
        decreases frames@.len(),
    {
        let frame = frames.remove(0);
        assert(frame == start[dropped]);
        proof {
            assert(frames@ =~= start.skip(dropped + 1));
        }
        if frame.generation == current {
            assert(first_current(start, current, dropped));
            return Some((frame.left_bits, frame.right_bits));
        }
        proof {
            dropped = dropped + 1;
        }
    }
    assert(dropped == start.len());
    None
}

/// After a new generation starts, the frames still queued from older ones are
/// skipped: the first frame the device gets is the first one rendered for the new
/// generation, and no other.
pub proof fn law_stale_frames_are_skipped(
    queued: Seq<TaggedStereoFrame>,
    chunk: Seq<TaggedStereoFrame>,
    current: u64,
)
    requires
        none_current(queued, current),
        chunk.len() > 0,
        chunk[0].generation == current,
    ensures
        first_current(queued + chunk, current, queued.len() as int),
        forall|i: int| first_current(queued + chunk, current, i) ==> i == queued.len(),
{
    let all = queued + chunk;
    assert(all[queued.len() as int] == chunk[0]);
    assert forall|j: int| 0 <= j < queued.len() implies #[trigger] all[j].generation != current by {
        assert(all[j] == queued[j]);
    }
    assert forall|i: int| first_current(all, current, i) implies i == queued.len() by {
        if i < queued.len() {
            assert(all[i] == queued[i]);
        } else if i > queued.len() {
            assert(all[queued.len() as int].generation == current);
        }
    }
}

impl AudioOutput {
    #[verifier::type_invariant]
    spec fn bounded(self) -> bool {
        &&& self.frames@.len() <= self.capacity
        &&& self.capacity == self.buffer_frames * MAX_BUFFER_MULTIPLIER
        &&& is_supported_multiplier(self.multiplier as int)
    }

    /// The frames in the ring, oldest first.
    pub closed spec fn queued(self) -> Seq<TaggedStereoFrame> {
        self.frames@
    }

    /// How many frames the ring holds at most.
    pub closed spec fn ring_capacity(self) -> nat {
        self.capacity as nat
    }

    /// The generation whose frames are played.
    pub closed spec fn current_generation(self) -> u64 {
        self.generation
    }

    /// Whether the output is playing, so that a missing frame is an underrun.
    pub closed spec fn is_active(self) -> bool {
        self.active
    }

    pub closed spec fn is_shut_down(self) -> bool {
        self.shutdown
    }

    pub closed spec fn depth(self) -> u8 {
        self.multiplier
    }

    /// The device buffer, in frames.
    pub closed spec fn device_frames(self) -> nat {
        self.buffer_frames as nat
    }

    pub closed spec fn underruns(self) -> u64 {
        self.underrun_frames
    }

    /// How many frames the worker renders ahead at the current depth.
    pub open spec fn target(self) -> nat {
        self.device_frames() * self.depth() as nat
    }

    /// Everything but the ring is as in `other`.
    pub open spec fn same_controls(self, other: Self) -> bool {
        &&& self.ring_capacity() == other.ring_capacity()
        &&& self.current_generation() == other.current_generation()
        &&& self.is_active() == other.is_active()
        &&& self.is_shut_down() == other.is_shut_down()
        &&& self.depth() == other.depth()
        &&& self.device_frames() == other.device_frames()
    }

    /// An idle output for a device buffer of `buffer_frames` frames.
    pub fn new(buffer_frames: usize) -> (output: AudioOutput)
        requires
            buffer_frames * MAX_BUFFER_MULTIPLIER <= usize::MAX,
        ensures
            output.queued().len() == 0,
            output.ring_capacity() == buffer_frames * MAX_BUFFER_MULTIPLIER,
            output.current_generation() == 0,
            !output.is_active(),
            !output.is_shut_down(),
            output.depth() == DEFAULT_BUFFER_MULTIPLIER,
            output.device_frames() == buffer_frames,
            output.underruns() == 0,
    {
        AudioOutput {
            frames: Vec::new(),
            capacity: buffer_frames * MAX_BUFFER_MULTIPLIER,
            generation: 0,
            active: false,
            shutdown: false,
            multiplier: DEFAULT_BUFFER_MULTIPLIER,
            buffer_frames,
            underrun_frames: 0,
        }
    }

    /// Plays `generation` from now on: frames of other generations are skipped.
    pub fn start_generation(&mut self, generation: u64)
        ensures
            final(self).current_generation() == generation,
            final(self).is_active(),
            final(self).queued() == old(self).queued(),
            final(self).ring_capacity() == old(self).ring_capacity(),
            final(self).is_shut_down() == old(self).is_shut_down(),
            final(self).depth() == old(self).depth(),
            final(self).device_frames() == old(self).device_frames(),
            final(self).underruns() == old(self).underruns(),
    {
        proof {
            use_type_invariant(&*self);
        }
        self.generation = generation;
        self.active = true;
    }

    /// Moves to `generation` and falls silent: every queued frame is stale.
    pub fn stop_generation(&mut self, generation: u64)
        ensures
            final(self).current_generation() == generation,
            !final(self).is_active(),
            final(self).queued() == old(self).queued(),
            final(self).ring_capacity() == old(self).ring_capacity(),
            final(self).is_shut_down() == old(self).is_shut_down(),
            final(self).depth() == old(self).depth(),
            final(self).device_frames() == old(self).device_frames(),
            final(self).underruns() == old(self).underruns(),
    {
        proof {
            use_type_invariant(&*self);
        }
        self.generation = generation;
        self.active = false;
    }

    /// The song ended: what is queued still plays, but running dry is no underrun.
    pub fn finish(&mut self)
        ensures
            !final(self).is_active(),
            final(self).current_generation() == old(self).current_generation(),
            final(self).queued() == old(self).queued(),
            final(self).ring_capacity() == old(self).ring_capacity(),
            final(self).is_shut_down() == old(self).is_shut_down(),
            final(self).depth() == old(self).depth(),
            final(self).device_frames() == old(self).device_frames(),
            final(self).underruns() == old(self).underruns(),
    {
        proof {
            use_type_invariant(&*self);
        }
        self.active = false;
    }

    /// Stops the output for good: the worker pushes nothing more.
    pub fn shutdown(&mut self)
        ensures
            final(self).is_shut_down(),
            !final(self).is_active(),
            final(self).current_generation() == old(self).current_generation(),
            final(self).queued() == old(self).queued(),
            final(self).ring_capacity() == old(self).ring_capacity(),
            final(self).depth() == old(self).depth(),
            final(self).device_frames() == old(self).device_frames(),
            final(self).underruns() == old(self).underruns(),
    {
        proof {
            use_type_invariant(&*self);
        }
        self.shutdown = true;
        self.active = false;
    }

    /// Sets how many device buffers the worker renders ahead; queued frames stay.
    pub fn set_buffer_multiplier(&mut self, multiplier: u8) -> (result: Result<(), String>)
        ensures
            is_supported_multiplier(multiplier as int) ==> result is Ok && final(self).depth()
                == multiplier,
            !is_supported_multiplier(multiplier as int) ==> (result matches Err(e) && e@
                == multiplier_error_text()) && final(self).depth() == old(self).depth(),
            final(self).queued() == old(self).queued(),
            final(self).ring_capacity() == old(self).ring_capacity(),
            final(self).current_generation() == old(self).current_generation(),
            final(self).is_active() == old(self).is_active(),
            final(self).is_shut_down() == old(self).is_shut_down(),
            final(self).device_frames() == old(self).device_frames(),
            final(self).underruns() == old(self).underruns(),
    {
        proof {
            use_type_invariant(&*self);
        }
        if !(multiplier == 1 || multiplier == 2 || multiplier == 4 || multiplier == 8) {
            return Err(crate::text::owned("live buffer multiplier must be 1, 2, 4, or 8"));
        }
        self.multiplier = multiplier;
        Ok(())
    }

    pub fn buffer_multiplier(&self) -> (multiplier: u8)
        ensures
            multiplier == self.depth(),
    {
        self.multiplier
    }

    pub fn generation(&self) -> (generation: u64)
        ensures
            generation == self.current_generation(),
    {
        self.generation
    }

    pub fn underrun_frames(&self) -> (count: u64)
        ensures
            count == self.underruns(),
    {
        self.underrun_frames
    }

    /// How many frames are queued.
    pub fn len(&self) -> (count: usize)
        ensures
            count == self.queued().len(),
    {
        self.frames.len()
    }

    /// How many frames the worker keeps rendered ahead.
    pub fn target_frames(&self) -> (frames: usize)
        ensures
            frames == self.target(),
    {
        proof {
            use_type_invariant(self);
            assert(self.buffer_frames * self.multiplier <= self.buffer_frames * 8) by (
            nonlinear_arith)
                requires
                    self.multiplier <= 8,
            ;
        }
        self.buffer_frames * self.multiplier as usize
    }

    /// Whether the worker should render another block now: the output runs and
    /// holds less than the render-ahead target.
    pub fn has_space(&self) -> (space: bool)
        ensures
            space == (!self.is_shut_down() && self.queued().len() < self.target()),
    {
        if self.shutdown {
            return false;
        }
        self.frames.len() < self.target_frames()
    }

    /// How many frames of a chunk of `total` frames go in from frame `from`.
    pub open spec fn pushed_count(self, generation: u64, total: nat, from: nat) -> nat {
        let room = (self.ring_capacity() - self.queued().len()) as nat;
        let left = (total - from) as nat;
        if left == 0 {
            0
        } else if self.current_generation() != generation {
            if room > 0 {
                1
            } else {
                0
            }
        } else if left <= room {
            left
        } else {
            room
        }
    }

    /// What a push of a chunk of `total` frames from frame `from` reports.
    pub open spec fn push_outcome(self, generation: u64, total: nat, from: nat) -> ChunkPush {
        let pushed = self.pushed_count(generation, total, from);
        if from == total {
            ChunkPush::Complete
        } else if self.current_generation() != generation {
            ChunkPush::Stale
        } else if from + pushed == total {
            ChunkPush::Complete
        } else if self.is_shut_down() {
            ChunkPush::Stale
        } else {
            ChunkPush::Full { next_frame: (from + pushed) as usize }
        }
    }

    /// Appends the frames of `samples` from frame `from_frame` on. A chunk of a
    /// generation other than the played one is dropped after at most one frame, as
    /// the device would skip it anyway; a full ring stops the push, to be resumed
    /// once the device has read, unless the output was shut down.
    pub fn push_chunk(&mut self, generation: u64, samples: &Vec<u32>, from_frame: usize) -> (outcome: ChunkPush)
        requires
            from_frame <= chunk_frames(generation, samples@).len(),
        ensures
            ({
                let all = chunk_frames(generation, samples@);
                let pushed = old(self).pushed_count(generation, all.len(), from_frame as nat);
                &&& final(self).queued() == old(self).queued() + all.subrange(
                    from_frame as int,
                    from_frame + pushed,
                )
                &&& outcome == old(self).push_outcome(generation, all.len(), from_frame as nat)
            }),
            final(self).same_controls(*old(self)),
            final(self).underruns() == old(self).underruns(),
    {
        proof {
            use_type_invariant(&*self);
        }
        let mut frames: Vec<TaggedStereoFrame> = Vec::new();
        std::mem::swap(&mut frames, &mut self.frames);
        let outcome = push_frames(
            &mut frames,
            self.capacity,
            self.generation,
            self.shutdown,
            generation,
            samples,
            from_frame,
        );
        self.frames = frames;
        outcome
    }

    /// The next frame for the device: frames of other generations are dropped on
    /// the way. When none is left, a playing output counts an underrun.
    pub fn next_frame(&mut self) -> (frame: Option<(u32, u32)>)
        ensures
            match frame {
                Some((left, right)) => exists|i: int|
                    first_current(old(self).queued(), old(self).current_generation(), i)
                        && final(self).queued() == old(self).queued().skip(i + 1) && left == old(
                        self,
                    ).queued()[i].left_bits && right == old(self).queued()[i].right_bits,
                None => none_current(old(self).queued(), old(self).current_generation())
                    && final(self).queued().len() == 0,
            },
            frame is Some || !old(self).is_active() ==> final(self).underruns() == old(
                self,
            ).underruns(),
            frame is None && old(self).is_active() ==> final(self).underruns() == (if old(
                self,
            ).underruns() == u64::MAX {
                0
            } else {
                old(self).underruns() + 1
            }),
            final(self).same_controls(*old(self)),
    {
        proof {
            use_type_invariant(&*self);
        }
        let mut frames: Vec<TaggedStereoFrame> = Vec::new();
        std::mem::swap(&mut frames, &mut self.frames);
        let ghost before = frames@;
        let frame = pop_current(&mut frames, self.generation);
        proof {
            if let Some((left, right)) = frame {
                let i = choose|i: int|
                    first_current(before, self.generation, i) && frames@ == before.skip(i + 1)
                        && left == before[i].left_bits && right == before[i].right_bits;
                assert(first_current(old(self).queued(), old(self).current_generation(), i));
            }
        }
        self.frames = frames;
        if frame.is_none() && self.active {
            self.underrun_frames = self.underrun_frames.wrapping_add(1);
        }
        frame
    }
}


} // verus!
