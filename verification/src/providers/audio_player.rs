//! The audio player shared by the speech providers: decoding raw PCM,
//! framing samples as an in-memory WAV file, and the playback position
//! that skipping, seeking and the position tracker move.
//!
//! Output through the sound device, and the spectrum shown while playing,
//! are left to the caller; this module decides what they are given.
use vstd::prelude::*;

use super::TTSError;

verus! {

// ----------------------------------------------------------------------------
// Samples and bytes
// ----------------------------------------------------------------------------

/// The signed 16-bit value of the little-endian byte pair `lo`, `hi`.
pub open spec fn le_i16(lo: u8, hi: u8) -> int {
    let v = lo as int + 256 * hi as int;
    if v >= 32768 { v - 65536 } else { v }
}

/// The samples of raw PCM data (16-bit signed, little endian, mono).
/// A trailing odd byte is ignored.
pub open spec fn pcm_samples(bytes: Seq<u8>) -> Seq<i16> {
    Seq::new(bytes.len() / 2, |i: int| le_i16(bytes[2 * i], bytes[2 * i + 1]) as i16)
}

/// The unsigned 16-bit pattern of a sample.
pub open spec fn sample_bits(x: i16) -> int {
    if x < 0 { x + 65536 } else { x as int }
}

/// The bytes of the samples, each little endian.
pub open spec fn sample_bytes(samples: Seq<i16>) -> Seq<u8> {
    Seq::new(2 * samples.len(), |j: int|
        if j % 2 == 0 {
            (sample_bits(samples[j / 2]) % 256) as u8
        } else {
            (sample_bits(samples[j / 2]) / 256) as u8
        })
}

/// The little-endian bytes of a `u16`.
pub open spec fn u16_le(x: u16) -> Seq<u8> {
    seq![(x % 256) as u8, (x / 256) as u8]
}

/// The little-endian bytes of a `u32`.
pub open spec fn u32_le(x: u32) -> Seq<u8> {
    seq![(x % 256) as u8, ((x / 256) % 256) as u8, ((x / 65536) % 256) as u8, (x / 16777216) as u8]
}

/// The header of a mono 16-bit PCM WAV file holding `n` samples.
pub open spec fn wav_header(n: nat, sample_rate: u32) -> Seq<u8> {
    // "RIFF", size, "WAVE"
    seq![82u8, 73, 70, 70] + u32_le((36 + 2 * n) as u32) + seq![87u8, 65, 86, 69]
    // "fmt ", chunk size 16, PCM, mono, rate, byte rate, block align 2, 16 bits
        + seq![102u8, 109, 116, 32] + u32_le(16) + u16_le(1) + u16_le(1)
        + u32_le(sample_rate) + u32_le((sample_rate * 2) as u32) + u16_le(2) + u16_le(16)
    // "data", data size
        + seq![100u8, 97, 116, 97] + u32_le((2 * n) as u32)
}

/// The WAV file holding `samples` at `sample_rate`.
pub open spec fn wav_file(samples: Seq<i16>, sample_rate: u32) -> Seq<u8> {
    wav_header(samples.len(), sample_rate) + sample_bytes(samples)
}

/// The samples of raw PCM bytes (16-bit signed, little endian, mono).
pub fn pcm_to_samples(pcm_bytes: &[u8]) -> (r: Vec<i16>)
    ensures
        r@ == pcm_samples(pcm_bytes@),
{
    let mut r: Vec<i16> = Vec::new();
    let n = pcm_bytes.len() / 2;
    let mut i: usize = 0;
    while i < n
        invariant
            n == pcm_bytes@.len() / 2,
            i <= n,
            r@ == pcm_samples(pcm_bytes@).take(i as int),
        decreases n - i,
    {
        assert(2 * i + 1 < pcm_bytes@.len()) by (nonlinear_arith)
            requires
                i < n,
                n == pcm_bytes@.len() / 2,
        ;
        assert(pcm_bytes@.len() == pcm_bytes.len());
        let lo = pcm_bytes[2 * i];
        let hi = pcm_bytes[2 * i + 1];
        let v: i32 = lo as i32 + (hi as i32) * 256;
        let s: i16 = if v >= 32768 { (v - 65536) as i16 } else { v as i16 };
        r.push(s);
        assert(r@ =~= pcm_samples(pcm_bytes@).take(i + 1));
        i += 1;
    }
    assert(pcm_samples(pcm_bytes@).take(n as int) =~= pcm_samples(pcm_bytes@));
    r
}

fn push_u16_le(v: &mut Vec<u8>, x: u16)
    ensures
        final(v)@ == old(v)@ + u16_le(x),
{
    v.push((x % 256) as u8);
    v.push((x / 256) as u8);
    assert(v@ =~= old(v)@ + u16_le(x));
}

fn push_u32_le(v: &mut Vec<u8>, x: u32)
    ensures
        final(v)@ == old(v)@ + u32_le(x),
{
    v.push((x % 256) as u8);
    v.push(((x / 256) % 256) as u8);
    v.push(((x / 65536) % 256) as u8);
    v.push((x / 16777216) as u8);
    assert(v@ =~= old(v)@ + u32_le(x));
}

fn push_tag(v: &mut Vec<u8>, a: u8, b: u8, c: u8, d: u8)
    ensures
        final(v)@ == old(v)@ + seq![a, b, c, d],
{
    v.push(a);
    v.push(b);
    v.push(c);
    v.push(d);
    assert(v@ =~= old(v)@ + seq![a, b, c, d]);
}

/// A mono 16-bit PCM WAV file, in memory, holding `samples` at
/// `sample_rate`.
pub fn create_wav(samples: &[i16], sample_rate: u32) -> (wav: Vec<u8>)
    requires
        44 + 2 * samples@.len() <= usize::MAX,
        sample_rate * 2 <= u32::MAX,
    ensures
        wav@ == wav_file(samples@, sample_rate),
{
    let num_samples = samples.len();
    let data_size = num_samples * 2;
    let file_size = 36 + data_size;
    let mut wav: Vec<u8> = Vec::new();
    push_tag(&mut wav, 82, 73, 70, 70);
    push_u32_le(&mut wav, file_size as u32);
    push_tag(&mut wav, 87, 65, 86, 69);
    push_tag(&mut wav, 102, 109, 116, 32);
    push_u32_le(&mut wav, 16);
    push_u16_le(&mut wav, 1);
    push_u16_le(&mut wav, 1);
    push_u32_le(&mut wav, sample_rate);
    push_u32_le(&mut wav, sample_rate * 2);
    push_u16_le(&mut wav, 2);
    push_u16_le(&mut wav, 16);
    push_tag(&mut wav, 100, 97, 116, 97);
    push_u32_le(&mut wav, data_size as u32);
    let ghost header = wav@;
    assert(header =~= wav_header(samples@.len(), sample_rate));
    let mut i: usize = 0;
    while i < num_samples
        invariant
            num_samples == samples@.len(),
            i <= num_samples,
            wav@ == header + sample_bytes(samples@.take(i as int)),
        decreases num_samples - i,
    {
        let x = samples[i];
        let u: u16 = if x < 0 { (x as i32 + 65536) as u16 } else { x as u16 };
        wav.push((u % 256) as u8);
        wav.push((u / 256) as u8);
        assert(sample_bytes(samples@.take(i + 1)) =~= sample_bytes(samples@.take(i as int))
            + seq![(u % 256) as u8, (u / 256) as u8]);
        i += 1;
    }
    assert(samples@.take(num_samples as int) =~= samples@);
    wav
}

/// A WAV file is its 44-byte header followed by two bytes per sample.
pub proof fn lemma_wav_length(samples: Seq<i16>, sample_rate: u32)
    ensures
        wav_file(samples, sample_rate).len() == 44 + 2 * samples.len(),
{
}

/// Decoding the data of a WAV file gives back the samples it was made from.
pub proof fn lemma_wav_round_trip(samples: Seq<i16>, sample_rate: u32)
    ensures
        pcm_samples(wav_file(samples, sample_rate).skip(44)) == samples,
{
    let data = wav_file(samples, sample_rate).skip(44);
    assert(data =~= sample_bytes(samples));
    assert forall|i: int| 0 <= i < samples.len() implies
        #[trigger] pcm_samples(data)[i] == samples[i] by {
        let u = sample_bits(samples[i]);
        assert(data[2 * i] == (u % 256) as u8);
        assert(data[2 * i + 1] == (u / 256) as u8);
        assert((u % 256) + 256 * (u / 256) == u);
    }
    assert(pcm_samples(data) =~= samples);
}

/// Every sample's byte pair decodes back to the sample.
pub proof fn lemma_pcm_of_sample_bytes(samples: Seq<i16>)
    ensures
        pcm_samples(sample_bytes(samples)) == samples,
{
    let data = sample_bytes(samples);
    assert forall|i: int| 0 <= i < samples.len() implies
        #[trigger] pcm_samples(data)[i] == samples[i] by {
        let u = sample_bits(samples[i]);
        assert((u % 256) + 256 * (u / 256) == u);
    }
    assert(pcm_samples(data) =~= samples);
}

// ----------------------------------------------------------------------------
// Playback position
// ----------------------------------------------------------------------------

/// Playback state shared between the player and its position tracker:
/// how many samples are loaded, where playback is, and which samples were
/// played last (for the spectrum display).
#[derive(Debug, Clone, Copy, PartialEq, Eq, Structural)]
pub struct PlaybackState {
    /// Number of loaded samples.
    pub audio_len: usize,
    /// Current playback position, in samples.
    pub position: usize,
    /// Whether playback is active.
    pub is_playing: bool,
    /// Whether playback is paused.
    pub is_paused: bool,
    /// Start of the most recently played chunk.
    pub chunk_start: usize,
    /// End (exclusive) of the most recently played chunk.
    pub chunk_end: usize,
}

/// The position after skipping `samples` forward: clamped to the end.
pub open spec fn skip_forward_position(position: int, audio_len: int, samples: int) -> int {
    if position + samples < audio_len { position + samples } else { audio_len }
}

/// The position after skipping `samples` backward: clamped to the start.
pub open spec fn skip_backward_position(position: int, samples: int) -> int {
    if position >= samples { position - samples } else { 0 }
}

impl PlaybackState {
    /// The position and the last chunk lie within the loaded samples.
    pub open spec fn wf(self) -> bool {
        &&& self.position <= self.audio_len
        &&& self.chunk_start <= self.chunk_end <= self.audio_len
    }

    /// The state right after `audio_len` samples are loaded.
    pub open spec fn loaded(audio_len: usize) -> PlaybackState {
        PlaybackState {
            audio_len,
            position: 0,
            is_playing: false,
            is_paused: false,
            chunk_start: 0,
            chunk_end: 0,
        }
    }

    /// The state after a pause request.
    pub open spec fn spec_paused(self) -> PlaybackState {
        if self.is_playing && !self.is_paused {
            PlaybackState { is_paused: true, ..self }
        } else {
            self
        }
    }

    /// The state after a resume request.
    pub open spec fn spec_resumed(self) -> PlaybackState {
        PlaybackState { is_paused: false, ..self }
    }

    /// The state after a stop request.
    pub open spec fn spec_stopped(self) -> PlaybackState {
        PlaybackState {
            is_playing: false,
            is_paused: false,
            position: 0,
            chunk_start: 0,
            chunk_end: 0,
            ..self
        }
    }

    /// Whether sound is being produced: playing and not paused.
    pub open spec fn spec_is_playing(self) -> bool {
        self.is_playing && !self.is_paused
    }

    /// No samples loaded, nothing playing.
    pub fn new() -> (s: PlaybackState)
        ensures
            s == PlaybackState::loaded(0),
            s.wf(),
    {
        PlaybackState::load(0)
    }

    /// The state after loading `audio_len` samples: at the start, not
    /// playing, no chunk.
    pub fn load(audio_len: usize) -> (s: PlaybackState)
        ensures
            s == PlaybackState::loaded(audio_len),
            s.wf(),
    {
        PlaybackState {
            audio_len,
            position: 0,
            is_playing: false,
            is_paused: false,
            chunk_start: 0,
            chunk_end: 0,
        }
    }

    /// Start playing from the current position. Fails when nothing is
    /// loaded or the position is at the end; otherwise returns the position
    /// playback starts from, and playback is active and not paused.
    pub fn start_playback(&mut self) -> (r: Result<usize, TTSError>)
        requires
            old(self).wf(),
        ensures
            final(self).wf(),
            old(self).audio_len == 0 ==> *final(self) == *old(self)
                && (r matches Err(TTSError::AudioError(m)) && m@ == "No audio data to play"@),
            old(self).audio_len > 0 && old(self).position >= old(self).audio_len ==> *final(self) == *old(self)
                && (r matches Err(TTSError::AudioError(m)) && m@ == "Playback position at end"@),
            old(self).position < old(self).audio_len ==> r == Ok::<usize, TTSError>(old(self).position)
                && *final(self) == (PlaybackState { is_playing: true, is_paused: false, ..*old(self) }),
    {
        if self.audio_len == 0 {
            return Err(TTSError::AudioError("No audio data to play".to_owned()));
        }
        if self.position >= self.audio_len {
            return Err(TTSError::AudioError("Playback position at end".to_owned()));
        }
        self.is_playing = true;
        self.is_paused = false;
        Ok(self.position)
    }

    /// Pause: a playing, unpaused state becomes paused; any other state is
    /// left as it is.
    pub fn pause(&mut self)
        ensures
            *final(self) == old(self).spec_paused(),
    {
        if self.is_playing && !self.is_paused {
            self.is_paused = true;
        }
    }

    /// Resume: the state is no longer paused.
    pub fn resume(&mut self)
        ensures
            *final(self) == old(self).spec_resumed(),
    {
        if self.is_paused {
            self.is_paused = false;
        }
    }

    /// Stop: not playing, not paused, back at the start, no chunk.
    pub fn stop(&mut self)
        ensures
            *final(self) == old(self).spec_stopped(),
    {
        self.is_playing = false;
        self.is_paused = false;
        self.position = 0;
        self.chunk_start = 0;
        self.chunk_end = 0;
    }

    /// Whether sound is being produced (playing and not paused).
    pub fn is_playing(&self) -> (r: bool)
        ensures
            r == self.spec_is_playing(),
    {
        self.is_playing && !self.is_paused
    }

    /// Whether playback is paused.
    pub fn is_paused(&self) -> (r: bool)
        ensures
            r == self.is_paused,
    {
        self.is_paused
    }

    /// Move to `position` (clamped to the end) and stop the position
    /// tracker. Returns whether sound was being produced, in which case the
    /// caller restarts playback from the new position.
    pub fn seek_to(&mut self, position: usize) -> (restart: bool)
        requires
            old(self).wf(),
        ensures
            final(self).wf(),
            restart == old(self).spec_is_playing(),
            *final(self) == (PlaybackState {
                position: if position < old(self).audio_len { position } else { old(self).audio_len },
                is_playing: false,
                ..*old(self)
            }),
    {
        let was_playing = self.is_playing && !self.is_paused;
        self.position = if position < self.audio_len { position } else { self.audio_len };
        self.is_playing = false;
        was_playing
    }

    /// Skip `samples` forward (stopping at the end); see [`Self::seek_to`].
    pub fn skip_forward(&mut self, samples: usize) -> (restart: bool)
        requires
            old(self).wf(),
            old(self).position + samples <= usize::MAX,
        ensures
            final(self).wf(),
            final(self).position == skip_forward_position(old(self).position as int, old(self).audio_len as int, samples as int),
            !final(self).is_playing,
            final(self).audio_len == old(self).audio_len,
            final(self).is_paused == old(self).is_paused,
            restart == old(self).spec_is_playing(),
    {
        let target = self.position + samples;
        self.seek_to(target)
    }

    /// Skip `samples` backward (stopping at the start); see
    /// [`Self::seek_to`].
    pub fn skip_backward(&mut self, samples: usize) -> (restart: bool)
        requires
            old(self).wf(),
        ensures
            final(self).wf(),
            final(self).position == skip_backward_position(old(self).position as int, samples as int),
            !final(self).is_playing,
            final(self).audio_len == old(self).audio_len,
            final(self).is_paused == old(self).is_paused,
            restart == old(self).spec_is_playing(),
    {
        let target = if self.position >= samples { self.position - samples } else { 0 };
        self.seek_to(target)
    }

    /// One step of the position tracker, `samples_per_chunk` samples after
    /// the last. Returns whether the tracker keeps running: it stops when
    /// playback is no longer active, waits while paused, and at the end of
    /// the audio stops playback at the end. Otherwise the position advances
    /// and the chunk just played is recorded.
    pub fn tracker_step(&mut self, samples_per_chunk: usize) -> (keep_running: bool)
        requires
            old(self).wf(),
            old(self).audio_len + samples_per_chunk <= usize::MAX,
        ensures
            final(self).wf(),
            !old(self).is_playing ==> !keep_running && *final(self) == *old(self),
            old(self).is_playing && old(self).is_paused ==> keep_running && *final(self) == *old(self),
            old(self).is_playing && !old(self).is_paused
                && old(self).position + samples_per_chunk >= old(self).audio_len ==> !keep_running
                && *final(self) == (PlaybackState { is_playing: false, position: old(self).audio_len, ..*old(self) }),
            old(self).is_playing && !old(self).is_paused
                && old(self).position + samples_per_chunk < old(self).audio_len ==> keep_running
                && *final(self) == (PlaybackState {
                    position: (old(self).position + samples_per_chunk) as usize,
                    chunk_start: skip_backward_position(old(self).position + samples_per_chunk, samples_per_chunk as int) as usize,
                    chunk_end: (old(self).position + samples_per_chunk) as usize,
                    ..*old(self)
                }),
    {
        if !self.is_playing {
            return false;
        }
        if self.is_paused {
            return true;
        }
        let new_position = self.position + samples_per_chunk;
        if new_position >= self.audio_len {
            self.is_playing = false;
            self.position = self.audio_len;
            return false;
        }
        self.position = new_position;
        self.chunk_start = if new_position >= samples_per_chunk { new_position - samples_per_chunk } else { 0 };
        self.chunk_end = new_position;
        true
    }
}

/// Seconds skipped by the skip buttons.
pub const SKIP_SECONDS: u32 = 5;

/// Samples in `seconds` of audio at `sample_rate`.
pub fn samples_for_seconds(seconds: u32, sample_rate: u32) -> (n: usize)
    requires
        seconds * sample_rate <= usize::MAX,
    ensures
        n == seconds * sample_rate,
{
    assert(seconds as int * sample_rate as int == seconds * sample_rate);
    (seconds as usize) * (sample_rate as usize)
}

/// Samples the position tracker advances per step: 75 ms of audio.
pub fn chunk_samples(sample_rate: u32) -> (n: usize)
    requires
        sample_rate * 75 <= usize::MAX,
    ensures
        n == sample_rate * 75 / 1000,
{
    (sample_rate as usize * 75) / 1000
}

/// Skipping forward and then backward by the same amount returns to the
/// starting position, unless the skip forward hit the end.
pub proof fn lemma_skip_forward_then_backward(position: int, audio_len: int, samples: int)
    requires
        0 <= position,
        0 <= samples,
        position + samples <= audio_len,
    ensures
        skip_backward_position(skip_forward_position(position, audio_len, samples), samples) == position,
{
}

/// Skipping backward and then forward by the same amount returns to the
/// starting position, unless the skip backward hit the start.
pub proof fn lemma_skip_backward_then_forward(position: int, audio_len: int, samples: int)
    requires
        0 <= samples <= position <= audio_len,
    ensures
        skip_forward_position(skip_backward_position(position, samples), audio_len, samples) == position,
{
}

/// Pausing and then resuming a playing state brings it back unchanged.
pub proof fn lemma_pause_resume(s: PlaybackState)
    requires
        s.spec_is_playing(),
    ensures
        s.spec_paused().spec_resumed() == s,
        !s.spec_paused().spec_is_playing(),
        s.spec_paused().is_paused,
{
}

/// After a stop nothing plays and the position is back at the start, from
/// any state.
pub proof fn lemma_stop_resets(s: PlaybackState)
    ensures
        !s.spec_stopped().spec_is_playing(),
        !s.spec_stopped().is_paused,
        s.spec_stopped().position == 0,
        s.spec_stopped().wf(),
        s.spec_stopped().audio_len == s.audio_len,
{
}

} // verus!
