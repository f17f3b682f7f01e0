//! Choosing a sound device configuration and cutting audio into frames.

use vstd::prelude::*;
use vstd::string::*;

verus! {

/// The samples per second that the codec works on.
pub const CODEC_RATE: usize = 8000;

/// The microphone samples of a dialled call that are resampled at a time.
pub const MIC_CHUNK: usize = 480;

/// A configuration range that a sound device supports.
#[derive(Debug, Clone, Copy, PartialEq, Eq, Structural)]
pub struct StreamRange {
    pub channels: u16,
    pub max_sample_rate: u32,
}

/// Why the sound hardware cannot be used.
#[derive(Debug)]
pub enum AudioFault {
    /// A dialled call found no microphone.
    NoMicrophone,
    /// A dialled call found no loudspeaker.
    NoSpeaker,
    /// The media engine found no microphone.
    MicrophoneMissing,
    /// The media engine found no loudspeaker.
    SpeakerMissing,
    NoInputConfig,
    NoOutputConfig,
    InputStream(String),
    OutputStream(String),
    InputPlay(String),
    OutputPlay(String),
    /// The sound system refused, in its own words.
    Device(String),
}

impl AudioFault {
    /// The fault in words.
    pub open spec fn words(self) -> Seq<char> {
        match self {
            AudioFault::NoMicrophone => "Microphone not found"@,
            AudioFault::NoSpeaker => "Speaker not found"@,
            AudioFault::MicrophoneMissing => "Microphone access denied or not found by OS"@,
            AudioFault::SpeakerMissing => "Speaker access denied or not found by OS"@,
            AudioFault::NoInputConfig => "No supported input config found"@,
            AudioFault::NoOutputConfig => "No supported output config found"@,
            AudioFault::InputStream(cause) => "build_input_stream failed: "@ + cause@,
            AudioFault::OutputStream(cause) => "build_output_stream failed: "@ + cause@,
            AudioFault::InputPlay(cause) => "input_stream.play() failed: "@ + cause@,
            AudioFault::OutputPlay(cause) => "output_stream.play() failed: "@ + cause@,
            AudioFault::Device(cause) => cause@,
        }
    }

    /// The fault in words.
    pub fn message(&self) -> (text: String)
        ensures
            text@ == self.words(),
    {
        match self {
            AudioFault::NoMicrophone => "Microphone not found".to_owned(),
            AudioFault::NoSpeaker => "Speaker not found".to_owned(),
            AudioFault::MicrophoneMissing => "Microphone access denied or not found by OS".to_owned(),
            AudioFault::SpeakerMissing => "Speaker access denied or not found by OS".to_owned(),
            AudioFault::NoInputConfig => "No supported input config found".to_owned(),
            AudioFault::NoOutputConfig => "No supported output config found".to_owned(),
            AudioFault::InputStream(cause) => "build_input_stream failed: ".to_owned().concat(
                cause.as_str(),
            ),
            AudioFault::OutputStream(cause) => "build_output_stream failed: ".to_owned().concat(
                cause.as_str(),
            ),
            AudioFault::InputPlay(cause) => "input_stream.play() failed: ".to_owned().concat(
                cause.as_str(),
            ),
            AudioFault::OutputPlay(cause) => "output_stream.play() failed: ".to_owned().concat(
                cause.as_str(),
            ),
            AudioFault::Device(cause) => cause.clone(),
        }
    }
}

/// Whether both sound devices are there; where both are missing, the microphone is what
/// is missed. A dialled call and the media engine name a missing device differently.
pub fn require_devices(dialled: bool, microphone: bool, speaker: bool) -> (found: Result<
    (),
    AudioFault,
>)
    ensures
        match found {
            Ok(_) => microphone && speaker,
            Err(fault) => if !microphone {
                if dialled {
                    fault is NoMicrophone
                } else {
                    fault is MicrophoneMissing
                }
            } else {
                &&& !speaker
                &&& if dialled {
                    fault is NoSpeaker
                } else {
                    fault is SpeakerMissing
                }
            },
        },
{
    if !microphone {
        if dialled {
            Err(AudioFault::NoMicrophone)
        } else {
            Err(AudioFault::MicrophoneMissing)
        }
    } else if !speaker {
        if dialled {
            Err(AudioFault::NoSpeaker)
        } else {
            Err(AudioFault::SpeakerMissing)
        }
    } else {
        Ok(())
    }
}

/// Some range has this number of channels.
pub open spec fn offers(ranges: Seq<StreamRange>, channels: u16) -> bool {
    exists|i: int| 0 <= i < ranges.len() && (#[trigger] ranges[i]).channels == channels
}

/// `i` is the first range with this number of channels.
pub open spec fn first_offer(ranges: Seq<StreamRange>, channels: u16, i: int) -> bool {
    &&& 0 <= i < ranges.len()
    &&& ranges[i].channels == channels
    &&& forall|j: int| 0 <= j < i ==> (#[trigger] ranges[j]).channels != channels
}

/// `i` is the preferred range: the first mono range, or the first stereo range where
/// there is no mono range.
pub open spec fn preferred(ranges: Seq<StreamRange>, i: int) -> bool {
    if offers(ranges, 1) {
        first_offer(ranges, 1, i)
    } else {
        first_offer(ranges, 2, i)
    }
}

/// Picks the first mono range, else the first stereo range.
fn pick_range(ranges: &[StreamRange]) -> (choice: Option<usize>)
    ensures
        match choice {
            Some(i) => preferred(ranges@, i as int),
            None => !offers(ranges@, 1) && !offers(ranges@, 2),
        },
{
    let mut stereo: Option<usize> = None;
    let len: usize = ranges.len();
    let mut i: usize = 0;
    while i < len
        invariant
            len == ranges@.len(),
            i <= len,
            forall|j: int| 0 <= j < i ==> (#[trigger] ranges@[j]).channels != 1,
            match stereo {
                Some(s) => s < i && first_offer(ranges@, 2, s as int),
                None => forall|j: int| 0 <= j < i ==> (#[trigger] ranges@[j]).channels != 2,
            },
        decreases len - i,
    {
        let channels: u16 = ranges[i].channels;
        if channels == 1 {
            assert(ranges@[i as int].channels == 1);
            return Some(i);
        }
        if stereo.is_none() && channels == 2 {
            stereo = Some(i);
        }
        i = i + 1;
    }
    stereo
}

/// The microphone range to use: the first mono range, else the first stereo range.
pub fn select_input(ranges: &[StreamRange]) -> (choice: Result<usize, AudioFault>)
    ensures
        match choice {
            Ok(i) => preferred(ranges@, i as int),
            Err(fault) => {
                &&& fault is NoInputConfig
                &&& !offers(ranges@, 1)
                &&& !offers(ranges@, 2)
            },
        },
{
    match pick_range(ranges) {
        Some(i) => Ok(i),
        None => Err(AudioFault::NoInputConfig),
    }
}

/// The loudspeaker range to use: the first mono range, else the first stereo range.
pub fn select_output(ranges: &[StreamRange]) -> (choice: Result<usize, AudioFault>)
    ensures
        match choice {
            Ok(i) => preferred(ranges@, i as int),
            Err(fault) => {
                &&& fault is NoOutputConfig
                &&& !offers(ranges@, 1)
                &&& !offers(ranges@, 2)
            },
        },
{
    match pick_range(ranges) {
        Some(i) => Ok(i),
        None => Err(AudioFault::NoOutputConfig),
    }
}

/// The sizes that follow from the chosen device ranges.
#[derive(Debug, Clone, Copy, PartialEq, Eq, Structural)]
pub struct HardwarePlan {
    pub in_channels: usize,
    pub out_channels: usize,
    pub in_rate: usize,
    pub out_rate: usize,
    /// Microphone samples that make up one packet time.
    pub frame_size: usize,
    /// Samples that the microphone queue holds.
    pub mic_capacity: usize,
    /// Samples that the loudspeaker queue holds.
    pub speaker_capacity: usize,
}

impl HardwarePlan {
    /// Both devices run at their highest rate. A queue has room for four seconds of one
    /// channel, and a frame is what one channel delivers in `ptime_ms` milliseconds.
    pub open spec fn fits(self, input: StreamRange, output: StreamRange, ptime_ms: nat) -> bool {
        &&& self.in_channels == input.channels
        &&& self.out_channels == output.channels
        &&& self.in_rate == input.max_sample_rate
        &&& self.out_rate == output.max_sample_rate
        &&& self.frame_size == (input.max_sample_rate * ptime_ms) / 1000
        &&& self.mic_capacity == 4 * input.max_sample_rate
        &&& self.speaker_capacity == 4 * output.max_sample_rate
    }

    /// The plan for the chosen ranges and a packet time of `ptime_ms` milliseconds.
    pub fn new(input: StreamRange, output: StreamRange, ptime_ms: usize) -> (plan: Self)
        requires
            4 * input.max_sample_rate <= usize::MAX,
            4 * output.max_sample_rate <= usize::MAX,
            input.max_sample_rate * ptime_ms <= usize::MAX,
        ensures
            plan.fits(input, output, ptime_ms as nat),
    {
        let in_rate: usize = input.max_sample_rate as usize;
        let out_rate: usize = output.max_sample_rate as usize;
        HardwarePlan {
            in_channels: input.channels as usize,
            out_channels: output.channels as usize,
            in_rate,
            out_rate,
            frame_size: (in_rate * ptime_ms) / 1000,
            mic_capacity: in_rate * 4,
            speaker_capacity: out_rate * 4,
        }
    }
}

/// The queue length for a dialled call: two seconds of one channel.
pub fn handset_capacity(sample_rate: u32) -> (capacity: usize)
    requires
        2 * sample_rate <= usize::MAX,
    ensures
        capacity == 2 * sample_rate,
{
    sample_rate as usize * 2
}

/// `n` silent samples.
pub open spec fn silent(n: nat) -> Seq<i16> {
    Seq::new(n, |i: int| 0i16)
}

/// A frame of `n` silent samples.
pub fn silence(n: usize) -> (frame: Vec<i16>)
    ensures
        frame@ == silent(n as nat),
{
    let mut frame: Vec<i16> = Vec::with_capacity(n);
    while frame.len() < n
        invariant
            frame@.len() <= n,
            frame@ =~= silent(frame@.len()),
        decreases n - frame@.len(),
    {
        frame.push(0);
    }
    frame
}

/// The whole frames of `n` samples in `samples`, in order; a shorter rest is left out.
pub open spec fn whole_frames(samples: Seq<i16>, n: nat) -> Seq<Seq<i16>>
    recommends
        0 < n,
{
    Seq::new(samples.len() / n, |i: int| samples.subrange(i * n, (i + 1) * n))
}

/// Cuts a signal into its whole frames of `n` samples.
pub fn cut_frames(samples: &Vec<i16>, n: usize) -> (frames: Vec<Vec<i16>>)
    requires
        0 < n,
    ensures
        frames@.len() == whole_frames(samples@, n as nat).len(),
        forall|i: int|
            0 <= i < frames@.len() ==> (#[trigger] frames@[i])@ == whole_frames(
                samples@,
                n as nat,
            )[i],
{
    let total: usize = samples.len();
    let count: usize = total / n;
    let mut frames: Vec<Vec<i16>> = Vec::with_capacity(count);
    let mut start: usize = 0;
    while frames.len() < count
        invariant
            0 < n,
            total == samples@.len(),
            count == samples@.len() / n as nat,
            frames@.len() <= count,
            start == frames@.len() * n,
            forall|i: int|
                0 <= i < frames@.len() ==> (#[trigger] frames@[i])@ == whole_frames(
                    samples@,
                    n as nat,
                )[i],
        decreases count - frames@.len(),
    {
        proof {
            lemma_frame_inside(samples@.len() as int, n as int, frames@.len() as int);
        }
        let mut frame: Vec<i16> = Vec::with_capacity(n);
        while frame.len() < n
            invariant
                frame@.len() <= n,
                total == samples@.len(),
                start + n <= total,
                frame@ =~= samples@.subrange(start as int, start + frame@.len()),
            decreases n - frame@.len(),
        {
            frame.push(samples[start + frame.len()]);
        }
        frames.push(frame);
        start = start + n;
    }
    frames
}

/// Frame `frame` of a signal of `len` samples ends within it.
proof fn lemma_frame_inside(len: int, n: int, frame: int)
    requires
        0 <= len,
        0 < n,
        0 <= frame < len / n,
    ensures
        0 <= frame * n,
        (frame + 1) * n == frame * n + n,
        (frame + 1) * n <= len,
{
    vstd::arithmetic::div_mod::lemma_fundamental_div_mod(len, n);
    vstd::arithmetic::div_mod::lemma_mod_bound(len, n);
    assert((frame + 1) * n == frame * n + n) by (nonlinear_arith);
    assert(0 <= frame * n) by (nonlinear_arith)
        requires
            0 <= frame,
            0 < n,
    ;
    assert((frame + 1) * n <= n * (len / n)) by (nonlinear_arith)
        requires
            frame + 1 <= len / n,
            0 < n,
    ;
}

/// A queue has room for a whole second of audio, and the microphone queue for a frame
/// of any packet time of up to four seconds, so that a frame can always fill up.
pub proof fn queues_hold_a_second_and_a_frame(
    plan: HardwarePlan,
    input: StreamRange,
    output: StreamRange,
    ptime_ms: nat,
)
    requires
        plan.fits(input, output, ptime_ms),
    ensures
        plan.in_rate <= plan.mic_capacity,
        plan.out_rate <= plan.speaker_capacity,
        ptime_ms <= 4000 ==> plan.frame_size <= plan.mic_capacity,
{
    let rate = input.max_sample_rate;
    if ptime_ms <= 4000 {
        assert(rate * ptime_ms <= rate * 4000) by (nonlinear_arith)
            requires
                ptime_ms <= 4000,
        ;
    }
}

/// A preferred range is mono or stereo, and it is stereo only where no range is mono.
pub proof fn preferred_is_mono_or_stereo(ranges: Seq<StreamRange>, i: int)
    requires
        preferred(ranges, i),
    ensures
        ranges[i].channels == 1 || ranges[i].channels == 2,
        ranges[i].channels == 2 ==> !offers(ranges, 1),
{
}

/// A device has at most one preferred range.
pub proof fn preferred_is_unique(ranges: Seq<StreamRange>, i: int, j: int)
    requires
        preferred(ranges, i),
        preferred(ranges, j),
    ensures
        i == j,
{
}

/// Put end to end, the whole frames are the beginning of the signal, in order.
pub proof fn whole_frames_keep_the_signal(samples: Seq<i16>, n: nat, frame: int, k: int)
    requires
        0 < n,
        0 <= frame < whole_frames(samples, n).len(),
        0 <= k < n,
    ensures
        whole_frames(samples, n)[frame].len() == n,
        0 <= frame * n + k < samples.len(),
        whole_frames(samples, n)[frame][k] == samples[frame * n + k],
{
    lemma_frame_inside(samples.len() as int, n as int, frame);
}

/// A fault that has a cause says which step failed, and then the whole cause.
pub proof fn faults_tell_their_whole_cause(cause: String)
    ensures
        told_after(AudioFault::InputStream(cause).words(), "build_input_stream failed: "@, cause@),
        told_after(AudioFault::OutputStream(cause).words(), "build_output_stream failed: "@, cause@),
        told_after(AudioFault::InputPlay(cause).words(), "input_stream.play() failed: "@, cause@),
        told_after(AudioFault::OutputPlay(cause).words(), "output_stream.play() failed: "@, cause@),
        told_after(AudioFault::Device(cause).words(), Seq::empty(), cause@),
{
}

/// The text is the lead and, behind it, every character of the cause.
pub open spec fn told_after(text: Seq<char>, lead: Seq<char>, cause: Seq<char>) -> bool {
    &&& text.len() == lead.len() + cause.len()
    &&& forall|i: int| 0 <= i < lead.len() ==> #[trigger] text[i] == lead[i]
    &&& forall|i: int| 0 <= i < cause.len() ==> text[lead.len() + i] == #[trigger] cause[i]
}

/// No mono range comes before the preferred range, and without a mono range no stereo
/// range does. A device with a mono or a stereo range has a preferred range.
pub proof fn preferred_is_the_first_of_its_kind(ranges: Seq<StreamRange>, i: int, j: int)
    requires
        0 <= j < ranges.len(),
    ensures
        preferred(ranges, i) ==> 0 <= i < ranges.len(),
        preferred(ranges, i) && ranges[j].channels == 1 ==> ranges[i].channels == 1 && i <= j,
        preferred(ranges, i) && ranges[j].channels == 2 ==> ranges[i].channels == 1 || i <= j,
        preferred(ranges, i) ==> ranges[i].channels == 1 || ranges[i].channels == 2,
        ranges[j].channels == 1 || ranges[j].channels == 2 ==> exists|k: int| preferred(ranges, k),
        offers(ranges, ranges[j].channels),
{
    assert(offers(ranges, ranges[j].channels));
    if offers(ranges, 1) {
        let k = choose|k: int| 0 <= k < ranges.len() && (#[trigger] ranges[k]).channels == 1;
        let first = lemma_first_offer(ranges, 1, k);
        assert(preferred(ranges, first));
    } else if ranges[j].channels == 2 {
        let first = lemma_first_offer(ranges, 2, j);
        assert(preferred(ranges, first));
    }
}

/// Where some range has this number of channels, a first one has.
proof fn lemma_first_offer(ranges: Seq<StreamRange>, channels: u16, k: int) -> (first: int)
    requires
        0 <= k < ranges.len(),
        ranges[k].channels == channels,
    ensures
        first_offer(ranges, channels, first),
    decreases k,
{
    if exists|j: int| 0 <= j < k && (#[trigger] ranges[j]).channels == channels {
        let j = choose|j: int| 0 <= j < k && (#[trigger] ranges[j]).channels == channels;
        lemma_first_offer(ranges, channels, j)
    } else {
        k
    }
}

/// A plan takes channels and rates as the devices offer them, its queues hold four
/// seconds, and its frame is the longest that one packet time fills.
pub proof fn plans_follow_the_devices(
    plan: HardwarePlan,
    input: StreamRange,
    output: StreamRange,
    ptime_ms: nat,
)
    requires
        plan.fits(input, output, ptime_ms),
    ensures
        plan.in_channels == input.channels,
        plan.out_channels == output.channels,
        plan.in_rate == input.max_sample_rate,
        plan.out_rate == output.max_sample_rate,
        plan.mic_capacity == 4 * plan.in_rate,
        plan.speaker_capacity == 4 * plan.out_rate,
        1000 * plan.frame_size <= plan.in_rate * ptime_ms < 1000 * (plan.frame_size + 1),
{
}

/// Silence has the length that was asked for, and every sample of it is zero.
pub proof fn silence_is_all_zeros(n: nat)
    ensures
        silent(n).len() == n,
        forall|i: int| 0 <= i < n ==> #[trigger] silent(n)[i] == 0,
{
}

/// As many frames are cut as fit, and what is left over is shorter than a frame.
pub proof fn frames_are_cut_while_they_fit(samples: Seq<i16>, n: nat)
    requires
        0 < n,
    ensures
        whole_frames(samples, n).len() * n <= samples.len(),
        samples.len() < (whole_frames(samples, n).len() + 1) * n,
{
    let len = samples.len() as int;
    let count = whole_frames(samples, n).len() as int;
    vstd::arithmetic::div_mod::lemma_fundamental_div_mod(len, n as int);
    vstd::arithmetic::div_mod::lemma_mod_bound(len, n as int);
    assert(n * count == count * n) by (nonlinear_arith);
    assert((count + 1) * n == count * n + n) by (nonlinear_arith);
}

/// A device offers a number of channels only where one of its ranges has it.
pub proof fn offers_are_made_by_a_range(ranges: Seq<StreamRange>, channels: u16)
    requires
        forall|i: int| 0 <= i < ranges.len() ==> (#[trigger] ranges[i]).channels != channels,
    ensures
        !offers(ranges, channels),
{
}

} // verus!
