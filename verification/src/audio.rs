//! The stereo frame ring between the emulator and the audio device, and the
//! source that hands its frames out one interleaved sample at a time.

use vstd::prelude::*;
use std::collections::VecDeque;

verus! {

/// How many frames `push_samples` drops from the front of a ring holding
/// `len` frames with room for `max_frames`, before appending `n` new ones:
/// enough to stay within `max_frames`, counted with saturation, but never
/// more than the ring holds. An empty push drops nothing.
pub open spec fn frames_dropped(len: nat, n: nat, max_frames: nat) -> nat {
    let needed: nat = if len + n > usize::MAX { usize::MAX as nat } else { len + n };
    if n == 0 {
        0
    } else if needed > max_frames {
        let d = (needed - max_frames) as nat;
        if d < len { d } else { len }
    } else {
        0
    }
}

/// The ring stays within its bound: a ring holding at most `max_frames`
/// frames still does after a push of at most `max_frames` frames, and the
/// frames dropped are never more than it held (the two lengths together
/// fitting in a `usize`, as lengths in memory do).
pub proof fn lemma_push_keeps_bound(len: nat, n: nat, max_frames: nat)
    requires
        len <= max_frames,
        n <= max_frames,
        len + n <= usize::MAX,
    ensures
        frames_dropped(len, n, max_frames) <= len,
        len - frames_dropped(len, n, max_frames) + n <= max_frames,
{
}

/// The number of stereo frames one 60 Hz video frame takes at `sample_rate`
/// Hz, and the carried remainder: each video frame gets `sample_rate / 60`
/// frames, plus one whenever the accumulated remainders reach 60.
pub open spec fn video_frame_split(sample_rate: u32, rem_acc: u32) -> (nat, nat) {
    let acc: nat = if rem_acc + sample_rate % 60 > u32::MAX { u32::MAX as nat } else { (rem_acc + sample_rate % 60) as nat };
    if acc >= 60 {
        ((sample_rate / 60 + 1) as nat, (acc - 60) as nat)
    } else {
        ((sample_rate / 60) as nat, acc)
    }
}

/// The frames produced over `k` video frames starting from a carried
/// remainder `acc`, and the remainder after them.
pub open spec fn frames_over(sample_rate: u32, acc: u32, k: nat) -> (nat, nat)
    decreases k,
{
    if k == 0 {
        (0, acc as nat)
    } else {
        let (n, a) = video_frame_split(sample_rate, acc);
        let (total, last) = frames_over(sample_rate, a as u32, (k - 1) as nat);
        (n + total, last)
    }
}

/// The frame pacing is exact: starting with no carried remainder, any 60
/// consecutive video frames receive `sample_rate` stereo frames in total,
/// and the remainder is back to zero.
pub proof fn lemma_pacing_one_second(sample_rate: u32)
    ensures
        frames_over(sample_rate, 0, 60) == (sample_rate as nat, 0nat),
{
    let q = (sample_rate / 60) as int;
    let r = (sample_rate % 60) as int;
    lemma_pacing_steps(sample_rate, 0, 60);
    assert(60 * r / 60 == r) by (nonlinear_arith)
        requires
            0 <= r < 60,
    ;
    assert(60 * r % 60 == 0) by (nonlinear_arith)
        requires
            0 <= r < 60,
    ;
    assert(q * 60 + r == sample_rate) by (nonlinear_arith)
        requires
            q == sample_rate / 60,
            r == sample_rate % 60,
    ;
}

proof fn lemma_pacing_steps(sample_rate: u32, j: nat, k: nat)
    requires
        j + k <= 60,
    ensures
        ({
            let q = (sample_rate / 60) as int;
            let r = (sample_rate % 60) as int;
            let acc = ((j * r) % 60) as u32;
            let (total, last) = frames_over(sample_rate, acc, k);
            &&& total == k * q + ((j + k) * r) / 60 - (j * r) / 60
            &&& last == ((j + k) * r) % 60
        }),
    decreases k,
{
    let q = (sample_rate / 60) as int;
    let r = (sample_rate % 60) as int;
    assert(0 <= r < 60);
    assert(0 <= j * r) by (nonlinear_arith)
        requires
            0 <= r,
    ;
    let acc_i = (j * r) % 60;
    assert(0 <= acc_i < 60);
    if k > 0 {
        let acc = acc_i as u32;
        let s = acc_i + r;
        let (n, a) = video_frame_split(sample_rate, acc);
        assert(((j + 1) * r) / 60 == (j * r) / 60 + (if s >= 60 { 1int } else { 0 })
            && ((j + 1) * r) % 60 == (if s >= 60 { s - 60 } else { s })) by (nonlinear_arith)
            requires
                0 <= r < 60,
                acc_i == (j * r) % 60,
                s == acc_i + r,
                0 <= j * r,
        ;
        assert(a == ((j + 1) * r) % 60);
        assert(n == q + ((j + 1) * r) / 60 - (j * r) / 60);
        lemma_pacing_steps(sample_rate, j + 1, (k - 1) as nat);
        assert(a as u32 == ((((j + 1) * r) % 60) as u32));
        let (t2, l2) = frames_over(sample_rate, a as u32, (k - 1) as nat);
        assert(t2 == (k - 1) * q + ((j + k) * r) / 60 - ((j + 1) * r) / 60);
        assert((k - 1) * q + q == k * q) by (nonlinear_arith);
        assert(frames_over(sample_rate, acc, k) == (n + t2, l2));
    } else {
        assert(acc_i as u32 as int == acc_i);
    }
}

/// The number of stereo frames to produce for the next video frame and the
/// remainder to carry to the one after (see `video_frame_split`).
pub fn video_frame_samples(sample_rate: u32, rem_acc: u32) -> (r: (usize, u32))
    ensures
        (r.0 as nat, r.1 as nat) == video_frame_split(sample_rate, rem_acc),
{
    let base = (sample_rate / 60) as usize;
    let rem = sample_rate % 60;
    let mut acc = rem_acc.saturating_add(rem);
    let extra: usize = if acc >= 60 {
        acc = acc - 60;
        1
    } else {
        0
    };
    (base + extra, acc)
}

/// Whether the ring has room for another video frame of `frame_size`
/// frames: it must hold fewer than `buffer_frames - frame_size` frames
/// (counted with saturation), so that production never runs ahead of the
/// device by more than the buffer.
pub fn ring_has_room(ring_len: usize, buffer_frames: usize, frame_size: usize) -> (r: bool)
    ensures
        r == (ring_len < if frame_size > buffer_frames { 0 } else { buffer_frames - frame_size }),
{
    ring_len < buffer_frames.saturating_sub(frame_size)
}

/// A bounded FIFO of stereo frames: new frames push the oldest ones out.
pub struct AudioRing {
    buffer: VecDeque<(i16, i16)>,
    max_frames: usize,
}

impl View for AudioRing {
    type V = Seq<(i16, i16)>;

    /// The frames in the ring, oldest first.
    closed spec fn view(&self) -> Seq<(i16, i16)> {
        self.buffer@
    }
}

impl AudioRing {
    /// The number of frames the ring keeps.
    pub closed spec fn max_frames(&self) -> nat {
        self.max_frames as nat
    }

    pub fn new(max_frames: usize) -> (r: AudioRing)
        ensures
            r@ == Seq::<(i16, i16)>::empty(),
            r.max_frames() == max_frames,
    {
        AudioRing { buffer: VecDeque::with_capacity(max_frames), max_frames }
    }

    pub fn len(&self) -> (n: usize)
        ensures
            n == self@.len(),
    {
        self.buffer.len()
    }

    pub fn clear(&mut self)
        ensures
            final(self)@ == Seq::<(i16, i16)>::empty(),
            final(self).max_frames() == old(self).max_frames(),
    {
        self.buffer.clear();
    }

    /// Appends `samples`, first dropping the oldest frames as far as needed
    /// to keep at most `max_frames` frames.
    pub fn push_samples(&mut self, samples: &[(i16, i16)])
        ensures
            final(self)@ == old(self)@.skip(
                frames_dropped(old(self)@.len(), samples@.len(), old(self).max_frames()) as int,
            ) + samples@,
            final(self).max_frames() == old(self).max_frames(),
    {
        if samples.len() == 0 {
            assert(old(self)@.skip(0) + samples@ =~= old(self)@);
            return;
        }
        let needed = self.buffer.len().saturating_add(samples.len());
        if needed > self.max_frames {
            let drop = needed - self.max_frames;
            let ghost start = self.buffer@;
            let mut i: usize = 0;
            while i < drop
                invariant
                    i <= drop,
                    self.max_frames == old(self).max_frames,
                    self.buffer@ == start.skip(if i < start.len() { i as int } else { start.len() as int }),
                decreases drop - i,
            {
                self.buffer.pop_front();
                i += 1;
            }
        }
        let ghost before = self.buffer@;
        assert(before == old(self)@.skip(
            frames_dropped(old(self)@.len(), samples@.len(), old(self).max_frames()) as int,
        ));
        let mut j: usize = 0;
        while j < samples.len()
            invariant
                j <= samples@.len(),
                self.max_frames == old(self).max_frames,
                self.buffer@ == before + samples@.take(j as int),
            decreases samples@.len() - j,
        {
            self.buffer.push_back(samples[j]);
            proof {
                assert(samples@.take(j + 1) =~= samples@.take(j as int).push(samples@[j as int]));
            }
            j += 1;
        }
        assert(samples@.take(samples@.len() as int) =~= samples@);
    }

    /// Moves up to `max` of the oldest frames into `out` (which is cleared
    /// first) and returns how many were moved.
    pub fn pop_into(&mut self, out: &mut Vec<(i16, i16)>, max: usize) -> (count: usize)
        ensures
            count == if old(self)@.len() < max { old(self)@.len() } else { max as nat },
            final(out)@ == old(self)@.take(count as int),
            final(self)@ == old(self)@.skip(count as int),
            final(self).max_frames() == old(self).max_frames(),
    {
        out.clear();
        let count = if self.buffer.len() < max { self.buffer.len() } else { max };
        out.reserve(count);
        let ghost start = self.buffer@;
        let mut i: usize = 0;
        while i < count
            invariant
                i <= count,
                count <= start.len(),
                self.max_frames == old(self).max_frames,
                self.buffer@ == start.skip(i as int),
                out@ == start.take(i as int),
            decreases count - i,
        {
            if let Some(v) = self.buffer.pop_front() {
                out.push(v);
            }
            proof {
                assert(start.take(i + 1) =~= start.take(i as int).push(start[i as int]));
                assert(start.skip(i + 1) =~= start.skip(i as int).subrange(1, start.skip(i as int).len() as int));
            }
            i += 1;
        }
        count
    }
}

/// `frame` resized to `len` frames: truncated, or padded with silence.
pub open spec fn resized_frame(frame: Seq<(i16, i16)>, len: nat) -> Seq<(i16, i16)> {
    if frame.len() >= len {
        frame.take(len as int)
    } else {
        frame + Seq::new((len - frame.len()) as nat, |i: int| (0i16, 0i16))
    }
}

/// Abstract contents of a [`SnesAudioSource`].
pub struct SnesAudioSourceView {
    pub sample_rate: u32,
    pub channels: u16,
    pub current_frame: Seq<(i16, i16)>,
    pub sample_cursor: nat,
    pub chunk_frames: nat,
}

/// The source after loading the next chunk from a ring holding `q`, and
/// what the ring then holds (see `SnesAudioSource::generate_audio_frame`).
pub open spec fn source_refilled(v: SnesAudioSourceView, q: Seq<(i16, i16)>) -> (SnesAudioSourceView, Seq<(i16, i16)>) {
    let got = if q.len() < v.chunk_frames { q.len() } else { v.chunk_frames };
    (
        SnesAudioSourceView { current_frame: resized_frame(q.take(got as int), v.chunk_frames), sample_cursor: 0, ..v },
        q.skip(got as int),
    )
}

/// Every sample of the current chunk has been handed out.
pub open spec fn source_consumed(v: SnesAudioSourceView) -> bool {
    v.sample_cursor >= if 2 * v.current_frame.len() > usize::MAX {
        usize::MAX as nat
    } else {
        2 * v.current_frame.len()
    }
}

/// The sample handed out next and the source after it (see
/// `SnesAudioSource::next_sample`).
pub open spec fn source_sample(v: SnesAudioSourceView) -> (i16, SnesAudioSourceView) {
    if v.current_frame.len() == 0 || v.sample_cursor / 2 >= v.current_frame.len() || v.sample_cursor == usize::MAX {
        (0i16, v)
    } else {
        (interleaved_sample(v.current_frame, v.sample_cursor), SnesAudioSourceView { sample_cursor: v.sample_cursor + 1, ..v })
    }
}

/// A stereo sample source fed from an [`AudioRing`] one chunk at a time:
/// `current_frame` holds the chunk and `sample_cursor` counts the
/// interleaved samples (left, right, left, ...) already handed out.
pub struct SnesAudioSource {
    sample_rate: u32,
    channels: u16,
    current_frame: Vec<(i16, i16)>,
    sample_cursor: usize,
    chunk_frames: usize,
}

impl View for SnesAudioSource {
    type V = SnesAudioSourceView;

    closed spec fn view(&self) -> SnesAudioSourceView {
        SnesAudioSourceView {
            sample_rate: self.sample_rate,
            channels: self.channels,
            current_frame: self.current_frame@,
            sample_cursor: self.sample_cursor as nat,
            chunk_frames: self.chunk_frames as nat,
        }
    }
}

/// The sample at interleaved position `cursor` of `frame`: even positions
/// are left samples, odd ones right samples.
pub open spec fn interleaved_sample(frame: Seq<(i16, i16)>, cursor: nat) -> i16 {
    if cursor % 2 == 1 {
        frame[(cursor / 2) as int].1
    } else {
        frame[(cursor / 2) as int].0
    }
}

impl SnesAudioSource {
    /// A stereo source of `sample_rate` Hz that takes `chunk_frames` frames
    /// (at least one) from the ring at a time.
    pub fn new(sample_rate: u32, chunk_frames: usize) -> (s: SnesAudioSource)
        ensures
            s@ == (SnesAudioSourceView {
                sample_rate,
                channels: 2,
                current_frame: Seq::empty(),
                sample_cursor: 0,
                chunk_frames: if chunk_frames > 1 { chunk_frames as nat } else { 1 },
            }),
    {
        let channels: u16 = 2;
        SnesAudioSource {
            sample_rate,
            channels,
            current_frame: Vec::with_capacity(chunk_frames),
            sample_cursor: 0,
            chunk_frames: if chunk_frames > 1 { chunk_frames } else { 1 },
        }
    }

    pub fn channels(&self) -> (r: u16)
        ensures
            r == self@.channels,
    {
        self.channels
    }

    pub fn sample_rate(&self) -> (r: u32)
        ensures
            r == self@.sample_rate,
    {
        self.sample_rate
    }

    /// Whether every sample of the current chunk has been handed out, so
    /// that a new chunk must be generated before the next sample.
    pub fn frame_consumed(&self) -> (r: bool)
        ensures
            r == (self@.sample_cursor >= if 2 * self@.current_frame.len() > usize::MAX {
                usize::MAX as nat
            } else {
                2 * self@.current_frame.len()
            }),
    {
        let len = self.current_frame.len();
        let samples = if len > usize::MAX / 2 { usize::MAX } else { len * 2 };
        self.sample_cursor >= samples
    }

    fn pad_to_chunk(&mut self)
        ensures
            final(self)@ == (SnesAudioSourceView {
                current_frame: resized_frame(old(self)@.current_frame, old(self)@.chunk_frames),
                sample_cursor: 0,
                ..old(self)@
            }),
    {
        let ghost loaded = self.current_frame@;
        let ghost before = self@;
        if self.current_frame.len() > self.chunk_frames {
            self.current_frame.truncate(self.chunk_frames);
        } else {
            while self.current_frame.len() < self.chunk_frames
                invariant
                    self.chunk_frames == before.chunk_frames,
                    self.sample_rate == before.sample_rate,
                    self.channels == before.channels,
                    loaded.len() <= self.current_frame@.len() <= self.chunk_frames,
                    self.current_frame@ == loaded + Seq::new(
                        (self.current_frame@.len() - loaded.len()) as nat,
                        |i: int| (0i16, 0i16),
                    ),
                decreases self.chunk_frames - self.current_frame.len(),
            {
                self.current_frame.push((0, 0));
                proof {
                    let n = (self.current_frame@.len() - loaded.len()) as nat;
                    assert(self.current_frame@ =~= loaded + Seq::new(n, |i: int| (0i16, 0i16)));
                }
            }
            proof {
                if loaded.len() == before.chunk_frames {
                    assert(self.current_frame@ =~= loaded.take(loaded.len() as int));
                }
            }
        }
        self.sample_cursor = 0;
    }

    /// Loads the next chunk: up to `chunk_frames` frames taken from the
    /// ring, padded with silence to exactly `chunk_frames` frames; the cursor
    /// restarts.
    pub fn generate_audio_frame(&mut self, ring: &mut AudioRing)
        ensures
            ({
                let got = if old(ring)@.len() < old(self)@.chunk_frames {
                    old(ring)@.len()
                } else {
                    old(self)@.chunk_frames
                };
                &&& final(self)@ == (SnesAudioSourceView {
                    current_frame: resized_frame(old(ring)@.take(got as int), old(self)@.chunk_frames),
                    sample_cursor: 0,
                    ..old(self)@
                })
                &&& final(ring)@ == old(ring)@.skip(got as int)
                &&& final(ring).max_frames() == old(ring).max_frames()
            }),
    {
        ring.pop_into(&mut self.current_frame, self.chunk_frames);
        self.pad_to_chunk();
    }

    /// What loading a chunk does when the ring cannot be reached (its lock
    /// is poisoned): the previous chunk is kept, resized to `chunk_frames`
    /// frames, and played again from the start.
    pub fn repeat_audio_frame(&mut self)
        ensures
            final(self)@ == (SnesAudioSourceView {
                current_frame: resized_frame(old(self)@.current_frame, old(self)@.chunk_frames),
                sample_cursor: 0,
                ..old(self)@
            }),
    {
        self.pad_to_chunk();
    }

    /// One sample of the endless stream: a used-up chunk is first replaced
    /// by the next one from the ring, then the next sample is handed out.
    pub fn next_from_ring(&mut self, ring: &mut AudioRing) -> (r: i16)
        ensures
            ({
                let (s1, q1) = if source_consumed(old(self)@) {
                    source_refilled(old(self)@, old(ring)@)
                } else {
                    (old(self)@, old(ring)@)
                };
                &&& (r, final(self)@) == source_sample(s1)
                &&& final(ring)@ == q1
                &&& final(ring).max_frames() == old(ring).max_frames()
            }),
    {
        if self.frame_consumed() {
            self.generate_audio_frame(ring);
        }
        self.next_sample()
    }

    /// The next interleaved sample of the current chunk (left then right of
    /// each frame), or silence when the chunk is empty or used up (or the
    /// cursor cannot advance further).
    pub fn next_sample(&mut self) -> (r: i16)
        ensures
            ({
                let o = old(self)@;
                if o.current_frame.len() == 0 || o.sample_cursor / 2 >= o.current_frame.len()
                    || o.sample_cursor == usize::MAX {
                    r == 0 && final(self)@ == o
                } else {
                    r == interleaved_sample(o.current_frame, o.sample_cursor)
                        && final(self)@ == SnesAudioSourceView { sample_cursor: o.sample_cursor + 1, ..o }
                }
            }),
    {
        if self.current_frame.len() == 0 {
            return 0;
        }
        let sample_index = self.sample_cursor / 2;
        let is_right_channel = self.sample_cursor % 2 == 1;
        if sample_index >= self.current_frame.len() || self.sample_cursor == usize::MAX {
            return 0;
        }
        let sample = if is_right_channel {
            self.current_frame[sample_index].1
        } else {
            self.current_frame[sample_index].0
        };
        self.sample_cursor += 1;
        sample
    }
}

} // verus!
