//! The queue of audio samples between a sound device and the media loop.

use vstd::prelude::*;

verus! {

/// The sample queue itself: a heap ring buffer of the `ringbuf` crate.
///
/// Nothing inside it is visible to the verifier. What it holds is named by
/// [`ring_items`] and how much it can hold by [`ring_capacity`].
#[verifier::external_body]
pub struct Ring {
    inner: ringbuf::HeapRb<u32>,
}

/// The samples waiting in `ring`, the oldest first.
pub uninterp spec fn ring_items(ring: Ring) -> Seq<u32>;

/// How many samples `ring` was made to hold.
pub uninterp spec fn ring_capacity(ring: Ring) -> nat;

/// Calls `ringbuf::HeapRb::new`, which makes an empty ring of the given capacity. It
/// panics on capacity zero and on a capacity whose bytes no allocation can have; both
/// are excluded. That memory runs out is not considered, here as for a `Vec`.
#[verifier::external_body]
fn ring_new(capacity: usize) -> (ring: Ring)
    requires
        0 < capacity,
        4 * capacity <= isize::MAX,
    ensures
        ring_items(ring) == Seq::<u32>::empty(),
        ring_capacity(ring) == capacity,
{
    Ring { inner: ringbuf::HeapRb::<u32>::new(capacity) }
}

/// Calls `ringbuf::Rb::push`, which appends an item, or hands it back and changes
/// nothing where the ring is full. The capacity of a ring is constant.
#[verifier::external_body]
fn ring_push(ring: &mut Ring, sample: u32) -> (outcome: Result<(), u32>)
    ensures
        ring_capacity(*final(ring)) == ring_capacity(*old(ring)),
        ring_items(*old(ring)).len() < ring_capacity(*old(ring)) ==> {
            &&& outcome == Ok::<(), u32>(())
            &&& ring_items(*final(ring)) == ring_items(*old(ring)).push(sample)
        },
        ring_items(*old(ring)).len() >= ring_capacity(*old(ring)) ==> {
            &&& outcome == Err::<(), u32>(sample)
            &&& ring_items(*final(ring)) == ring_items(*old(ring))
        },
{
    ringbuf::Rb::push(&mut ring.inner, sample)
}

/// Calls `ringbuf::Rb::pop`, which removes the item that was appended first of those
/// that wait, or gives `None` and changes nothing where the ring is empty.
#[verifier::external_body]
fn ring_pop(ring: &mut Ring) -> (oldest: Option<u32>)
    ensures
        ring_capacity(*final(ring)) == ring_capacity(*old(ring)),
        ring_items(*old(ring)).len() == 0 ==> {
            &&& oldest is None
            &&& ring_items(*final(ring)) == ring_items(*old(ring))
        },
        ring_items(*old(ring)).len() > 0 ==> {
            &&& oldest == Some(ring_items(*old(ring))[0])
            &&& ring_items(*final(ring)) == ring_items(*old(ring)).drop_first()
        },
{
    ringbuf::Rb::pop(&mut ring.inner)
}

/// Calls `ringbuf::Rb::len`, which counts the items that wait.
#[verifier::external_body]
fn ring_len(ring: &Ring) -> (len: usize)
    ensures
        len == ring_items(*ring).len(),
{
    ringbuf::Rb::len(&ring.inner)
}

/// A first-in first-out queue of audio samples between the sound device and the
/// media loop.
///
/// A sample is carried as the bit pattern of its floating-point value, so that
/// zero is silence. A sample that finds the queue full is dropped: in live audio
/// a late sample is worth nothing. Threads share a queue behind a lock.
pub struct SampleRing {
    ring: Ring,
}

/// What a [`SampleRing`] holds, oldest first, and how much it can hold.
#[verifier::ext_equal]
pub struct Samples {
    pub items: Seq<u32>,
    pub capacity: nat,
}

impl Samples {
    /// How many more samples fit.
    pub open spec fn room(self) -> nat {
        if self.items.len() < self.capacity {
            (self.capacity - self.items.len()) as nat
        } else {
            0
        }
    }

    /// After `added` was offered: what fits is kept in order, the rest is dropped.
    pub open spec fn offered(self, added: Seq<u32>) -> Samples {
        Samples { items: self.items + clipped(added, self.room()), ..self }
    }

    /// After the `n` oldest samples have left, or all where there are fewer.
    pub open spec fn taken(self, n: nat) -> Samples {
        Samples { items: self.items.skip(shorter(n, self.items.len()) as int), ..self }
    }
}

/// The smaller of two lengths.
pub open spec fn shorter(a: nat, b: nat) -> nat {
    if a < b {
        a
    } else {
        b
    }
}

/// The first `n` elements of `s`, or all where there are fewer.
pub open spec fn clipped(s: Seq<u32>, n: nat) -> Seq<u32> {
    s.take(shorter(n, s.len()) as int)
}

/// The number of frames in `len` interleaved samples of `channels` channels; a
/// last frame may be incomplete.
pub open spec fn frame_count(len: nat, channels: nat) -> nat
    recommends
        0 < channels,
{
    (len + channels - 1) as nat / channels
}

/// The first (left) channel of interleaved samples.
pub open spec fn first_channel(data: Seq<u32>, channels: nat) -> Seq<u32>
    recommends
        0 < channels,
{
    Seq::new(frame_count(data.len(), channels), |i: int| data[i * channels])
}

/// `len` interleaved samples in which every channel of a frame repeats one sample
/// of `mono`, and frames past the end of `mono` are silent.
pub open spec fn interleaved(mono: Seq<u32>, len: nat, channels: nat) -> Seq<u32>
    recommends
        0 < channels,
{
    Seq::new(
        len,
        |i: int|
            if i / (channels as int) < mono.len() {
                mono[i / (channels as int)]
            } else {
                0u32
            },
    )
}

impl View for SampleRing {
    type V = Samples;

    closed spec fn view(&self) -> Samples {
        Samples { items: ring_items(self.ring), capacity: ring_capacity(self.ring) }
    }
}

impl SampleRing {
    /// The queue never holds more than it was made for.
    pub open spec fn wf(&self) -> bool {
        &&& 0 < self@.capacity
        &&& self@.items.len() <= self@.capacity
    }

    /// An empty queue for `capacity` samples.
    pub fn new(capacity: usize) -> (queue: Self)
        requires
            0 < capacity,
            4 * capacity <= isize::MAX,
        ensures
            queue.wf(),
            queue@ == (Samples { items: Seq::empty(), capacity: capacity as nat }),
    {
        SampleRing { ring: ring_new(capacity) }
    }

    /// The number of waiting samples.
    pub fn len(&self) -> (len: usize)
        ensures
            len == self@.items.len(),
    {
        ring_len(&self.ring)
    }

    /// Offers one sample; it is dropped where the queue is full.
    fn offer(&mut self, sample: u32)
        requires
            old(self).wf(),
        ensures
            final(self).wf(),
            final(self)@ == old(self)@.offered(seq![sample]),
    {
        let _ = ring_push(&mut self.ring, sample);
        assert(self@ =~= old(self)@.offered(seq![sample]));
    }

    /// Takes the oldest sample.
    fn next(&mut self) -> (oldest: Option<u32>)
        requires
            old(self).wf(),
        ensures
            final(self).wf(),
            final(self)@ == old(self)@.taken(1),
            oldest == (if old(self)@.items.len() > 0 {
                Some(old(self)@.items[0])
            } else {
                None::<u32>
            }),
    {
        let oldest = ring_pop(&mut self.ring);
        assert(self@ =~= old(self)@.taken(1));
        oldest
    }

    /// Queues what the microphone delivered: of interleaved samples only the first
    /// channel. Samples that do not fit are dropped.
    pub fn capture(&mut self, data: &[u32], channels: usize)
        requires
            old(self).wf(),
            0 < channels,
        ensures
            final(self).wf(),
            final(self)@ == old(self)@.offered(first_channel(data@, channels as nat)),
    {
        let ghost mono = first_channel(data@, channels as nat);
        let mut i: usize = 0;
        let ghost mut frame: int = 0;
        let len: usize = data.len();
        proof {
            lemma_frame_count(len as int, channels as int);
            assert(self@ =~= old(self)@.offered(mono.take(0)));
        }
        while i < len
            invariant
                0 < channels,
                len == data@.len(),
                mono == first_channel(data@, channels as nat),
                0 <= frame <= mono.len(),
                frame < mono.len() ==> i == frame * channels,
                i >= len <==> frame == mono.len(),
                self.wf(),
                self@ == old(self)@.offered(mono.take(frame)),
            decreases mono.len() - frame,
        {
            proof {
                lemma_frame_count(len as int, channels as int);
            }
            self.offer(data[i]);
            proof {
                assert(mono[frame] == data@[i as int]);
                assert(mono.take(frame + 1) =~= mono.take(frame) + seq![mono[frame]]);
                offers_queue_in_order(old(self)@, mono.take(frame), seq![mono[frame]]);
                lemma_next_frame(frame, len as int, channels as int);
                frame = frame + 1;
            }
            if len - i <= channels {
                i = len;
            } else {
                i = i + channels;
            }
        }
        assert(mono.take(frame) =~= mono);
    }

    /// Queues samples for the loudspeaker, in order. Samples that do not fit are
    /// dropped.
    pub fn enqueue(&mut self, samples: &[u32])
        requires
            old(self).wf(),
        ensures
            final(self).wf(),
            final(self)@ == old(self)@.offered(samples@),
    {
        let len: usize = samples.len();
        let mut i: usize = 0;
        assert(self@ =~= old(self)@.offered(samples@.take(0)));
        while i < len
            invariant
                len == samples@.len(),
                i <= len,
                self.wf(),
                self@ == old(self)@.offered(samples@.take(i as int)),
            decreases len - i,
        {
            self.offer(samples[i]);
            proof {
                let sample = samples@[i as int];
                assert(samples@.take(i + 1) =~= samples@.take(i as int) + seq![sample]);
                offers_queue_in_order(old(self)@, samples@.take(i as int), seq![sample]);
            }
            i = i + 1;
        }
        assert(samples@.take(len as int) =~= samples@);
    }

    /// Fills `len` interleaved output samples: one queued sample per frame, repeated
    /// on every channel, and silence once the queue has run dry.
    pub fn render(&mut self, len: usize, channels: usize) -> (out: Vec<u32>)
        requires
            old(self).wf(),
            0 < channels,
        ensures
            final(self).wf(),
            final(self)@ == old(self)@.taken(frame_count(len as nat, channels as nat)),
            out@ == interleaved(old(self)@.items, len as nat, channels as nat),
    {
        let mut out: Vec<u32> = Vec::new();
        let mut sample: u32 = 0;
        let mut filled: usize = channels;
        let ghost mut frames: nat = 0;
        let ghost items = old(self)@.items;
        assert(self@ =~= old(self)@.taken(0));
        while out.len() < len
            invariant
                0 < channels,
                items == old(self)@.items,
                self.wf(),
                self@ == old(self)@.taken(frames),
                filled <= channels,
                out@.len() <= len,
                out@.len() == frames * channels - (channels - filled),
                frames > 0 ==> sample == (if frames <= items.len() {
                    items[frames - 1]
                } else {
                    0u32
                }),
                frames == 0 ==> filled == channels,
                out@.len() == 0 ==> frames == 0,
                frames > 0 ==> 0 < filled,
                out@ =~= interleaved(items, out@.len(), channels as nat),
            decreases len - out@.len(),
        {
            if filled == channels {
                let ghost frames_before = frames;
                sample = match self.next() {
                    Some(s) => s,
                    None => 0,
                };
                filled = 0;
                proof {
                    frames = frames + 1;
                    assert(self@ =~= old(self)@.taken(frames));
                    assert((frames_before + 1) * channels == frames_before * channels + channels)
                        by (nonlinear_arith);
                }
            }
            proof {
                lemma_frame_of(out@.len() as int, frames - 1, filled as int, channels as int);
            }
            out.push(sample);
            filled = filled + 1;
            assert(out@ =~= interleaved(items, out@.len(), channels as nat));
        }
        proof {
            lemma_frames_in(len as int, frames as int, filled as int, channels as int);
        }
        out
    }

    /// Takes every waiting sample, oldest first.
    pub fn drain(&mut self) -> (samples: Vec<u32>)
        requires
            old(self).wf(),
        ensures
            final(self).wf(),
            final(self)@ == (Samples { items: Seq::empty(), ..old(self)@ }),
            samples@ == old(self)@.items,
    {
        let n: usize = self.len();
        let samples = self.take_up_to(n);
        assert(self@.items =~= Seq::empty());
        assert(samples@ =~= old(self)@.items);
        samples
    }

    /// Takes a whole frame of `n` samples once that many are waiting; before that
    /// nothing is taken.
    pub fn take_frame(&mut self, n: usize) -> (frame: Option<Vec<u32>>)
        requires
            old(self).wf(),
        ensures
            final(self).wf(),
            match frame {
                Some(samples) => {
                    &&& n <= old(self)@.items.len()
                    &&& samples@ == old(self)@.items.take(n as int)
                    &&& final(self)@ == old(self)@.taken(n as nat)
                },
                None => {
                    &&& old(self)@.items.len() < n
                    &&& final(self)@ == old(self)@
                },
            },
    {
        if self.len() >= n {
            Some(self.take_up_to(n))
        } else {
            None
        }
    }

    /// Takes `n` samples that are known to wait.
    fn take_up_to(&mut self, n: usize) -> (samples: Vec<u32>)
        requires
            old(self).wf(),
            n <= old(self)@.items.len(),
        ensures
            final(self).wf(),
            samples@ == old(self)@.items.take(n as int),
            final(self)@ == old(self)@.taken(n as nat),
    {
        let mut samples: Vec<u32> = Vec::with_capacity(n);
        assert(self@ =~= old(self)@.taken(0));
        while samples.len() < n
            invariant
                n <= old(self)@.items.len(),
                samples@.len() <= n,
                self.wf(),
                self@ == old(self)@.taken(samples@.len()),
                samples@ =~= old(self)@.items.take(samples@.len() as int),
            decreases n - samples@.len(),
        {
            let sample = match self.next() {
                Some(s) => s,
                None => 0,
            };
            samples.push(sample);
            assert(self@ =~= old(self)@.taken(samples@.len()));
        }
        samples
    }
}

/// [`frame_count`] is the least number of frames that hold `len` samples.
proof fn lemma_frame_count(len: int, channels: int)
    requires
        0 <= len,
        0 < channels,
    ensures
        len <= frame_count(len as nat, channels as nat) * channels,
        0 < len ==> (frame_count(len as nat, channels as nat) - 1) * channels < len,
        len == 0 <==> frame_count(len as nat, channels as nat) == 0,
{
    let total = len + channels - 1;
    let count = total / channels;
    vstd::arithmetic::div_mod::lemma_fundamental_div_mod(total, channels);
    vstd::arithmetic::div_mod::lemma_mod_bound(total, channels);
    assert((count - 1) * channels == count * channels - channels) by (nonlinear_arith);
    assert(channels * count == count * channels) by (nonlinear_arith);
    assert(count == 0 ==> count * channels == 0) by (nonlinear_arith);
    assert(count > 0 ==> count * channels >= channels) by (nonlinear_arith)
        requires
            0 < channels,
    ;
    assert(count < 0 ==> count * channels < 0) by (nonlinear_arith)
        requires
            0 < channels,
    ;
}

/// Any number of frames that is just enough is [`frame_count`].
proof fn lemma_is_frame_count(len: int, channels: int, count: int)
    requires
        0 <= len,
        0 < channels,
        0 <= count,
        len <= count * channels,
        (count - 1) * channels < len || (count == 0 && len == 0),
    ensures
        frame_count(len as nat, channels as nat) == count,
{
    lemma_frame_count(len, channels);
    let least = frame_count(len as nat, channels as nat) as int;
    assert(least <= count - 1 ==> least * channels <= (count - 1) * channels) by (nonlinear_arith)
        requires
            0 < channels,
    ;
    assert(count <= least - 1 ==> count * channels <= (least - 1) * channels) by (nonlinear_arith)
        requires
            0 < channels,
    ;
}

/// Whether the frame after `frame` is past the end.
proof fn lemma_next_frame(frame: int, len: int, channels: int)
    requires
        0 <= frame,
        0 < channels,
        frame * channels < len,
    ensures
        (frame + 1) * channels == frame * channels + channels,
        frame + 1 <= frame_count(len as nat, channels as nat),
        len - frame * channels <= channels <==> frame_count(len as nat, channels as nat) == frame
            + 1,
{
    assert((frame + 1) * channels == frame * channels + channels) by (nonlinear_arith);
    assert(0 <= frame * channels) by (nonlinear_arith)
        requires
            0 <= frame,
            0 < channels,
    ;
    lemma_frame_count(len, channels);
    let count = frame_count(len as nat, channels as nat) as int;
    assert(count <= frame ==> count * channels <= frame * channels) by (nonlinear_arith)
        requires
            0 < channels,
    ;
    if len - frame * channels <= channels {
        lemma_is_frame_count(len, channels, frame + 1);
    }
}

/// The sample at `pos` lies in frame `frame` where `offset` samples of it come before.
proof fn lemma_frame_of(pos: int, frame: int, offset: int, channels: int)
    requires
        0 <= offset < channels,
        pos == (frame + 1) * channels - (channels - offset),
    ensures
        pos / channels == frame,
{
    assert((frame + 1) * channels == frame * channels + channels) by (nonlinear_arith);
    vstd::arithmetic::div_mod::lemma_fundamental_div_mod_converse(pos, channels, frame, offset);
}

/// `frames` frames of which the last has `filled` samples hold [`frame_count`] frames.
proof fn lemma_frames_in(len: int, frames: int, filled: int, channels: int)
    requires
        0 <= len,
        0 <= frames,
        0 < channels,
        0 < filled <= channels,
        frames == 0 ==> filled == channels,
        len == frames * channels - (channels - filled),
    ensures
        frame_count(len as nat, channels as nat) == frames,
{
    assert((frames - 1) * channels == frames * channels - channels) by (nonlinear_arith);
    assert(frames == 0 ==> frames * channels == 0) by (nonlinear_arith);
    lemma_is_frame_count(len, channels, frames);
}

/// Samples queue up in the order in which they were offered: two offers, one after
/// the other, leave what one offer of both leaves.
pub proof fn offers_queue_in_order(queue: Samples, first: Seq<u32>, second: Seq<u32>)
    requires
        queue.items.len() <= queue.capacity,
    ensures
        queue.offered(first).offered(second) == queue.offered(first + second),
{
    assert(queue.offered(first).offered(second) =~= queue.offered(first + second));
}

/// While there is room nothing is lost, and a full queue drops the newcomers, never a
/// sample that already waits.
pub proof fn waiting_samples_are_kept(queue: Samples, added: Seq<u32>)
    requires
        queue.items.len() <= queue.capacity,
    ensures
        added.len() <= queue.room() ==> queue.offered(added).items == queue.items + added,
        queue.items.len() == queue.capacity ==> queue.offered(added) == queue,
        queue.offered(added).items.take(queue.items.len() as int) == queue.items,
        queue.offered(added).items.len() <= queue.capacity,
{
    if added.len() <= queue.room() {
        assert(queue.offered(added).items =~= queue.items + added);
    }
    if queue.items.len() == queue.capacity {
        assert(queue.offered(added) =~= queue);
    }
    assert(queue.offered(added).items.take(queue.items.len() as int) =~= queue.items);
}

/// Samples leave in the order in which they came: taking `m` and then `n` is taking
/// `m + n`.
pub proof fn samples_leave_in_order(queue: Samples, m: nat, n: nat)
    ensures
        queue.taken(m).taken(n) == queue.taken(m + n),
{
    assert(queue.taken(m).taken(n) =~= queue.taken(m + n));
}

/// What a read gives back of a write: samples offered to an empty queue that has room
/// for them are the samples that wait, in that order.
pub proof fn read_gives_back_write(capacity: nat, written: Seq<u32>)
    requires
        written.len() <= capacity,
    ensures
        (Samples { items: Seq::empty(), capacity }).offered(written).items == written,
{
    assert((Samples { items: Seq::empty(), capacity }).offered(written).items =~= written);
}

/// Spreading a mono signal over several channels and taking the first channel again
/// gives the signal back.
pub proof fn downmix_undoes_upmix(mono: Seq<u32>, channels: nat)
    requires
        0 < channels,
    ensures
        first_channel(interleaved(mono, mono.len() * channels, channels), channels) == mono,
{
    let count = mono.len() as int;
    let wide = interleaved(mono, mono.len() * channels, channels);
    assert((count - 1) * channels < count * channels) by (nonlinear_arith)
        requires
            0 < channels,
    ;
    assert(0 <= count * channels) by (nonlinear_arith)
        requires
            0 <= count,
            0 < channels,
    ;
    lemma_is_frame_count(count * channels, channels as int, count);
    assert forall|i: int| 0 <= i < count implies #[trigger] first_channel(wide, channels)[i]
        == mono[i] by {
        assert(0 <= i * channels < count * channels) by (nonlinear_arith)
            requires
                0 <= i < count,
                0 < channels,
        ;
        vstd::arithmetic::div_mod::lemma_fundamental_div_mod_converse(
            i * channels,
            channels as int,
            i,
            0,
        );
    }
    assert(first_channel(wide, channels) =~= mono);
}

/// On a single channel the first channel is the whole signal.
pub proof fn mono_is_its_first_channel(data: Seq<u32>)
    ensures
        first_channel(data, 1) == data,
{
    assert(first_channel(data, 1) =~= data);
}

/// Of samples that are offered as many are kept as there is room for, from the first on
/// and behind those that wait already; a queue never grows beyond its capacity, which
/// stays as it is.
pub proof fn offered_samples_wait_behind_the_others(queue: Samples, added: Seq<u32>)
    requires
        queue.items.len() <= queue.capacity,
    ensures
        ({
            let after = queue.offered(added);
            let old_len = queue.items.len();
            &&& after.capacity == queue.capacity
            &&& after.items.len() == if old_len + added.len() <= queue.capacity {
                old_len + added.len()
            } else {
                queue.capacity
            }
            &&& forall|i: int| 0 <= i < old_len ==> #[trigger] after.items[i] == queue.items[i]
            &&& forall|i: int|
                old_len <= i < after.items.len() ==> #[trigger] after.items[i] == added[i - old_len]
        }),
{
}

/// Of the samples that wait the oldest leave, as many as are taken; the others stay, in
/// their order, and so does the capacity.
pub proof fn taken_samples_are_the_oldest(queue: Samples, n: nat)
    ensures
        ({
            let after = queue.taken(n);
            &&& after.capacity == queue.capacity
            &&& n <= queue.items.len() ==> after.items.len() + n == queue.items.len()
            &&& n > queue.items.len() ==> after.items.len() == 0
            &&& forall|i: int|
                0 <= i < after.items.len() ==> #[trigger] after.items[i] == queue.items[n + i]
        }),
{
}

/// Interleaved samples make up as many frames as it takes to hold them all, and the
/// first channel has one sample of each.
pub proof fn first_channel_has_a_sample_per_frame(data: Seq<u32>, channels: nat)
    requires
        0 < channels,
    ensures
        first_channel(data, channels).len() == frame_count(data.len(), channels),
        data.len() <= frame_count(data.len(), channels) * channels,
        0 < data.len() ==> (frame_count(data.len(), channels) - 1) * channels < data.len(),
        data.len() == 0 ==> frame_count(data.len(), channels) == 0,
{
    lemma_frame_count(data.len() as int, channels as int);
}

/// The sample of the first channel in a frame is the first sample of the frame.
pub proof fn first_channel_leads_its_frame(data: Seq<u32>, channels: nat, frame: int)
    requires
        0 < channels,
        0 <= frame < first_channel(data, channels).len(),
    ensures
        0 <= frame * channels,
        frame * channels < data.len(),
        first_channel(data, channels)[frame] == data[frame * channels],
{
    let count = frame_count(data.len(), channels) as int;
    lemma_frame_count(data.len() as int, channels as int);
    assert(0 <= frame * channels <= (count - 1) * channels) by (nonlinear_arith)
        requires
            0 <= frame <= count - 1,
            0 < channels,
    ;
}

/// Every channel of a frame plays the frame's sample, and a frame for which no sample is
/// left is silent.
pub proof fn every_channel_plays_the_sample_of_its_frame(
    mono: Seq<u32>,
    len: nat,
    channels: nat,
    frame: int,
    channel: int,
)
    requires
        0 <= frame,
        0 <= channel < channels,
        frame * channels + channel < len,
    ensures
        interleaved(mono, len, channels).len() == len,
        interleaved(mono, len, channels)[frame * channels + channel] == if frame < mono.len() {
            mono[frame]
        } else {
            0
        },
{
    assert(0 <= frame * channels) by (nonlinear_arith)
        requires
            0 <= frame,
            0 < channels,
    ;
    vstd::arithmetic::div_mod::lemma_fundamental_div_mod_converse(
        frame * channels + channel,
        channels as int,
        frame,
        channel,
    );
}

} // verus!
