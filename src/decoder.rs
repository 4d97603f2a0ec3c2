//! The dispatcher that picks a format, and the decoder that hides which one.
use vstd::prelude::*;
use vstd::arithmetic::div_mod::lemma_fundamental_div_mod;
use crate::codecs::{flac_blocks, flac_header, make_duration, vorbis_header, vorbis_packets, wav_header, wav_samples};
use crate::flac::FlacDecoder;
use crate::timing::{duration_parts, NANOS_PER_SEC};
use crate::vorbis::VorbisDecoder;
use crate::wav::WavDecoder;

verus! {

/// The formats a [`Decoder`] can hold.
#[derive(Debug, Clone, Copy, PartialEq, Eq, Structural)]
pub enum Format {
    Wav,
    Flac,
    Vorbis,
}

/// Error that can happen when creating a decoder.
#[derive(Debug, Clone, Copy, PartialEq, Eq, Structural)]
pub enum DecoderError {
    /// The format of the data has not been recognized.
    UnrecognizedFormat,
}

impl DecoderError {
    /// A short human-readable statement of the error.
    pub fn description(&self) -> (r: &'static str)
        ensures
            r@ == "Unrecognized format"@,
    {
        match self {
            DecoderError::UnrecognizedFormat => "Unrecognized format",
        }
    }
}

/// The WAV data chunk's length in inter-channel samples, as hound reads it.
pub open spec fn wav_frames(bytes: Seq<u8>) -> nat {
    match wav_header(bytes) {
        Some(h) => h.2 as nat / h.0 as nat,
        None => 0,
    }
}

/// The number of samples, all channels counted, that the WAV header of
/// `bytes` announces.
pub open spec fn wav_announced(bytes: Seq<u8>) -> nat {
    match wav_header(bytes) {
        Some(h) => h.2 as nat,
        None => 0,
    }
}

/// What the dispatcher makes of `bytes`: the first format, in the order WAV,
/// FLAC, Vorbis, whose reader accepts them, with the channel count, sample
/// rate and duration (seconds and nanoseconds) that its header gives; `None`
/// where no reader accepts them.
pub open spec fn stream_facts(bytes: Seq<u8>) -> Option<(Format, u16, u32, Option<(nat, nat)>)> {
    if let Some(h) = wav_header(bytes) {
        Some((Format::Wav, h.0, h.1, duration_parts(wav_frames(bytes), h.1 as nat)))
    } else if let Some(h) = flac_header(bytes) {
        Some((Format::Flac, h.0 as u16, h.1, match h.3 {
            Some(n) => duration_parts(n as nat, h.1 as nat),
            None => None,
        }))
    } else if let Some(h) = vorbis_header(bytes) {
        Some((Format::Vorbis, h.0 as u16, h.1, None))
    } else {
        None
    }
}

/// The format that the dispatcher picks for `bytes`, if any.
pub open spec fn recognized_format(bytes: Seq<u8>) -> Option<Format> {
    match stream_facts(bytes) {
        Some(f) => Some(f.0),
        None => None,
    }
}

/// The samples that a decoder built from `bytes` hands out, in order: hound's
/// samples of the data chunk for WAV, the interleaved 16-bit samples of
/// claxon's blocks for FLAC, lewton's packets one after another for Vorbis.
pub open spec fn decoded_samples(bytes: Seq<u8>) -> Seq<i16> {
    match stream_facts(bytes) {
        Some(f) => match f.0 {
            Format::Wav => wav_samples(bytes),
            Format::Flac => match flac_header(bytes) {
                Some(h) => crate::flac::samples_from(flac_blocks(bytes), 0, h.0, h.2),
                None => Seq::empty(),
            },
            Format::Vorbis => crate::vorbis::samples_from(vorbis_packets(bytes), 0),
        },
        None => Seq::empty(),
    }
}

enum DecoderImpl {
    Wav(WavDecoder),
    Vorbis(VorbisDecoder),
    Flac(FlacDecoder),
}

/// Source of audio samples from decoding a file.
///
/// Supports WAV, Vorbis and Flac.
pub struct Decoder(DecoderImpl);

impl Decoder {
    /// The bytes the decoder was built from.
    pub closed spec fn source(&self) -> Seq<u8> {
        match self.0 {
            DecoderImpl::Wav(d) => d.source(),
            DecoderImpl::Vorbis(d) => d.source(),
            DecoderImpl::Flac(d) => d.source(),
        }
    }

    pub closed spec fn format(&self) -> Format {
        match self.0 {
            DecoderImpl::Wav(_) => Format::Wav,
            DecoderImpl::Vorbis(_) => Format::Vorbis,
            DecoderImpl::Flac(_) => Format::Flac,
        }
    }

    pub closed spec fn spec_channels(&self) -> u16 {
        match self.0 {
            DecoderImpl::Wav(d) => d.spec_channels(),
            DecoderImpl::Vorbis(d) => d.spec_channels() as u16,
            DecoderImpl::Flac(d) => d.spec_channels() as u16,
        }
    }

    pub closed spec fn spec_sample_rate(&self) -> u32 {
        match self.0 {
            DecoderImpl::Wav(d) => d.spec_sample_rate(),
            DecoderImpl::Vorbis(d) => d.spec_sample_rate(),
            DecoderImpl::Flac(d) => d.spec_sample_rate(),
        }
    }

    /// Total duration as seconds and nanoseconds, where it is known.
    pub closed spec fn spec_duration(&self) -> Option<(nat, nat)> {
        match self.0 {
            DecoderImpl::Wav(d) => d.spec_duration(),
            DecoderImpl::Vorbis(d) => None,
            DecoderImpl::Flac(d) => d.spec_duration(),
        }
    }

    /// The lower bound of `size_hint`.
    pub closed spec fn spec_hint_low(&self) -> nat {
        match self.0 {
            DecoderImpl::Wav(d) => d.spec_remaining() as nat,
            DecoderImpl::Vorbis(d) => (d.spec_packet().len() - d.spec_offset()) as nat,
            DecoderImpl::Flac(d) => (d.spec_block().len() - d.spec_offset()) as nat,
        }
    }

    /// The upper bound of `size_hint`: known for WAV only, where it is exact.
    pub closed spec fn spec_hint_high(&self) -> Option<nat> {
        match self.0 {
            DecoderImpl::Wav(d) => Some(d.spec_remaining() as nat),
            _ => None,
        }
    }

    /// The samples that `next` hands out from here on, in order.
    pub closed spec fn spec_upcoming(&self) -> Seq<i16> {
        match self.0 {
            DecoderImpl::Wav(d) => d.spec_upcoming(),
            DecoderImpl::Vorbis(d) => d.spec_upcoming(),
            DecoderImpl::Flac(d) => d.spec_upcoming(),
        }
    }

    /// Whether every sample has been handed out: `next` returns `None` from here on.
    pub open spec fn exhausted(&self) -> bool {
        self.spec_upcoming().len() == 0
    }

    /// Whether no sample has been asked for yet.
    pub closed spec fn is_fresh(&self) -> bool {
        &&& self.spec_upcoming() == decoded_samples(self.source())
        &&& match self.0 {
            DecoderImpl::Wav(d) => d.spec_remaining() == d.spec_len(),
            DecoderImpl::Vorbis(d) => !d.spec_done() && d.spec_packet().len() == 0,
            DecoderImpl::Flac(d) => !d.spec_done() && d.spec_block().len() == 0,
        }
    }

    /// The active decoder is sound, and its format and header facts are what
    /// the dispatcher makes of its bytes.
    pub closed spec fn wf(&self) -> bool {
        &&& match self.0 {
            DecoderImpl::Wav(d) => d.wf(),
            DecoderImpl::Vorbis(d) => d.wf(),
            DecoderImpl::Flac(d) => d.wf(),
        }
        &&& stream_facts(self.source()) == Some((self.format(), self.spec_channels(), self.spec_sample_rate(), self.spec_duration()))
    }

    /// What well-formedness of the held decoder gives: a positive channel
    /// count, a positive rate for FLAC and Vorbis, and size hints that bound
    /// what is still to come.
    pub proof fn lemma_inner_wf(&self)
        requires
            self.wf(),
        ensures
            self.spec_channels() >= 1,
            self.format() != Format::Wav ==> self.spec_sample_rate() >= 1,
            self.spec_hint_high() matches Some(n) ==> self.spec_upcoming().len() <= n,
            self.format() != Format::Wav ==> self.spec_hint_low() <= self.spec_upcoming().len(),
            self.format() == Format::Wav && wav_samples(self.source()).len() >= wav_announced(self.source())
                ==> self.spec_hint_low() == self.spec_upcoming().len(),
    {
        match self.0 {
            DecoderImpl::Wav(d) => d.lemma_wf(),
            DecoderImpl::Vorbis(d) => d.lemma_wf(),
            DecoderImpl::Flac(d) => d.lemma_wf(),
        }
    }

    /// Builds a new decoder.
    ///
    /// Attempts to automatically detect the format of the source of data: WAV
    /// first, then FLAC, then Vorbis. The probes only read a copy of `data`, so
    /// one that declines leaves nothing behind for the next.
    pub fn new(data: Vec<u8>) -> (r: Result<Decoder, DecoderError>)
        ensures
            r.is_err() <==> stream_facts(data@).is_none(),
            r matches Err(e) ==> e == DecoderError::UnrecognizedFormat,
            r matches Ok(d) ==> {
                &&& d.wf()
                &&& d.source() == data@
                &&& d.is_fresh()
                &&& d.spec_upcoming() == decoded_samples(data@)
                &&& d.spec_channels() >= 1
                &&& d.format() != Format::Wav ==> d.spec_sample_rate() >= 1
                &&& stream_facts(data@) == Some((d.format(), d.spec_channels(), d.spec_sample_rate(), d.spec_duration()))
            },
    {
        match WavDecoder::try_new(&data) {
            Some(decoder) => {
                proof {
                    decoder.lemma_wf();
                }
                return Ok(Decoder(DecoderImpl::Wav(decoder)));
            },
            None => {},
        }
        match FlacDecoder::try_new(&data) {
            Some(decoder) => {
                proof {
                    decoder.lemma_wf();
                }
                return Ok(Decoder(DecoderImpl::Flac(decoder)));
            },
            None => {},
        }
        match VorbisDecoder::try_new(&data) {
            Some(decoder) => {
                proof {
                    decoder.lemma_wf();
                }
                return Ok(Decoder(DecoderImpl::Vorbis(decoder)));
            },
            None => {},
        }
        Err(DecoderError::UnrecognizedFormat)
    }

    /// The next sample, or `None` once the stream is exhausted.
    pub fn next(&mut self) -> (r: Option<i16>)
        requires
            old(self).wf(),
        ensures
            final(self).wf(),
            final(self).source() == old(self).source(),
            final(self).format() == old(self).format(),
            final(self).spec_channels() == old(self).spec_channels(),
            final(self).spec_sample_rate() == old(self).spec_sample_rate(),
            final(self).spec_duration() == old(self).spec_duration(),
            r == (if old(self).spec_upcoming().len() > 0 {
                Some(old(self).spec_upcoming()[0])
            } else {
                None::<i16>
            }),
            final(self).spec_upcoming() == (if old(self).spec_upcoming().len() > 0 {
                old(self).spec_upcoming().drop_first()
            } else {
                Seq::<i16>::empty()
            }),
            old(self).format() == Format::Wav && r.is_some()
                ==> final(self).spec_hint_low() + 1 == old(self).spec_hint_low(),
            old(self).format() != Format::Wav && old(self).spec_hint_low() > 0
                ==> final(self).spec_hint_low() + 1 == old(self).spec_hint_low(),
    {
        match &mut self.0 {
            DecoderImpl::Wav(source) => source.next(),
            DecoderImpl::Vorbis(source) => {
                proof {
                    source.lemma_wf();
                }
                source.next()
            },
            DecoderImpl::Flac(source) => {
                proof {
                    source.lemma_wf();
                }
                source.next()
            },
        }
    }

    /// Bounds on the number of samples left.
    pub fn size_hint(&self) -> (r: (usize, Option<usize>))
        requires
            self.wf(),
        ensures
            r.0 == self.spec_hint_low(),
            r.1 matches Some(n) ==> self.spec_hint_high() == Some(n as nat),
            r.1.is_none() ==> self.spec_hint_high().is_none(),
            r.1 matches Some(n) ==> self.spec_upcoming().len() <= n,
            self.format() != Format::Wav ==> r.0 <= self.spec_upcoming().len(),
            self.format() == Format::Wav && wav_samples(self.source()).len() >= wav_announced(self.source())
                ==> r.0 == self.spec_upcoming().len(),
    {
        proof {
            self.lemma_inner_wf();
        }
        match &self.0 {
            DecoderImpl::Wav(source) => source.size_hint(),
            DecoderImpl::Vorbis(source) => source.size_hint(),
            DecoderImpl::Flac(source) => source.size_hint(),
        }
    }

    /// Samples left in the current decode block or packet; `None` for WAV,
    /// which has no such blocks.
    pub fn current_frame_len(&self) -> (r: Option<usize>)
        requires
            self.wf(),
        ensures
            self.format() == Format::Wav ==> r.is_none(),
            self.format() != Format::Wav ==> (r matches Some(n) && n == self.spec_hint_low()),
    {
        match &self.0 {
            DecoderImpl::Wav(_) => None,
            DecoderImpl::Vorbis(source) => source.current_frame_len(),
            DecoderImpl::Flac(source) => source.current_frame_len(),
        }
    }

    pub fn channels(&self) -> (r: u16)
        requires
            self.wf(),
        ensures
            r == self.spec_channels(),
            r >= 1,
    {
        proof {
            self.lemma_inner_wf();
        }
        match &self.0 {
            DecoderImpl::Wav(source) => source.channels(),
            DecoderImpl::Vorbis(source) => source.channels() as u16,
            DecoderImpl::Flac(source) => source.channels() as u16,
        }
    }

    pub fn samples_rate(&self) -> (r: u32)
        requires
            self.wf(),
        ensures
            r == self.spec_sample_rate(),
            self.format() != Format::Wav ==> r >= 1,
    {
        proof {
            self.lemma_inner_wf();
        }
        match &self.0 {
            DecoderImpl::Wav(source) => source.samples_rate(),
            DecoderImpl::Vorbis(source) => source.samples_rate(),
            DecoderImpl::Flac(source) => source.samples_rate(),
        }
    }

    /// Total duration as whole seconds and the nanoseconds beyond them, where
    /// the container states it.
    pub fn total_duration_parts(&self) -> (r: Option<(u64, u32)>)
        requires
            self.wf(),
        ensures
            r.is_some() == self.spec_duration().is_some(),
            r matches Some(p) ==> self.spec_duration() == Some((p.0 as nat, p.1 as nat)),
            r matches Some(p) ==> p.1 < NANOS_PER_SEC,
    {
        match &self.0 {
            DecoderImpl::Wav(source) => source.duration_parts(),
            DecoderImpl::Vorbis(_) => None,
            DecoderImpl::Flac(source) => source.duration_parts(),
        }
    }

    /// Total duration, where the container states it.
    pub fn total_duration(&self) -> (r: Option<std::time::Duration>)
        requires
            self.wf(),
        ensures
            r.is_some() == self.spec_duration().is_some(),
    {
        match self.total_duration_parts() {
            Some((secs, nanos)) => Some(make_duration(secs, nanos)),
            None => None,
        }
    }
}

/// A decoder reports the channel count and sample rate that the header of its
/// bytes gives to the reader that accepted them; in particular, where exactly
/// one reader accepts the bytes, the decoder is of that reader's format and
/// reports that reader's header values.
pub proof fn lemma_metadata_matches_header(d: &Decoder)
    requires
        d.wf(),
    ensures
        wav_header(d.source()) matches Some(h) ==> {
            &&& d.format() == Format::Wav
            &&& d.spec_channels() == h.0
            &&& d.spec_sample_rate() == h.1
        },
        wav_header(d.source()).is_none() ==> (flac_header(d.source()) matches Some(h) ==> {
            &&& d.format() == Format::Flac
            &&& d.spec_channels() == h.0 as u16
            &&& d.spec_sample_rate() == h.1
        }),
        wav_header(d.source()).is_none() && flac_header(d.source()).is_none() ==> (
            vorbis_header(d.source()) matches Some(h) ==> {
                &&& d.format() == Format::Vorbis
                &&& d.spec_channels() == h.0 as u16
                &&& d.spec_sample_rate() == h.1
            }),
        d.spec_channels() >= 1,
{
    d.lemma_inner_wf();
}

/// A reader that declines the bytes does not change what the readers after it
/// decide: once WAV declines, FLAC is picked exactly when FLAC accepts, and once
/// both decline, Vorbis is picked exactly when Vorbis accepts.
pub proof fn lemma_declined_probe_changes_nothing(bytes: Seq<u8>)
    ensures
        wav_header(bytes).is_none() ==> (
            recognized_format(bytes) == Some(Format::Flac) <==> flac_header(bytes).is_some()),
        wav_header(bytes).is_none() && flac_header(bytes).is_none() ==> (
            recognized_format(bytes) == Some(Format::Vorbis) <==> vorbis_header(bytes).is_some()),
        wav_header(bytes).is_none() && flac_header(bytes).is_none() && vorbis_header(bytes).is_none()
            ==> recognized_format(bytes).is_none(),
{
}

/// A WAV decoder that has handed out nothing yet yields at most channels ×
/// frames samples, frames being the data chunk's length per channel, and
/// exactly that many when hound reads every sample the header announces.
pub proof fn lemma_wav_sample_count(d: &Decoder)
    requires
        d.wf(),
        d.is_fresh(),
        d.format() == Format::Wav,
    ensures
        d.spec_upcoming().len() <= d.spec_channels() as nat * wav_frames(d.source()),
        wav_samples(d.source()).len() >= wav_announced(d.source())
            ==> d.spec_upcoming().len() == d.spec_channels() as nat * wav_frames(d.source()),
        d.spec_hint_high() == Some(d.spec_channels() as nat * wav_frames(d.source())),
{
    match d.0 {
        DecoderImpl::Wav(w) => {
            w.lemma_wf();
            let c = w.spec_channels() as int;
            let n = w.spec_len() as int;
            lemma_fundamental_div_mod(n, c);
            assert(n % c == 0);
            assert(c * (n / c) == n);
        },
        _ => {},
    }
}

/// A FLAC stream whose STREAMINFO does not give its length has no known
/// duration, while its channel count and sample rate are still those of
/// STREAMINFO, and positive.
pub proof fn lemma_flac_unknown_duration(d: &Decoder)
    requires
        d.wf(),
        d.format() == Format::Flac,
        flac_header(d.source()) matches Some(h) && h.3.is_none(),
    ensures
        d.spec_duration().is_none(),
        flac_header(d.source()) matches Some(h)
            && d.spec_channels() as u32 == h.0 && d.spec_sample_rate() == h.1,
        d.spec_channels() >= 1,
        d.spec_sample_rate() >= 1,
{
    d.lemma_inner_wf();
    match d.0 {
        DecoderImpl::Flac(f) => f.lemma_wf(),
        _ => {},
    }
}

/// Two decoders built from copies of the same bytes, before either hands out a
/// sample, agree on format, channel count, sample rate, duration and size hint,
/// and have the same samples to come; since `next` hands those out in order,
/// the two yield the same sequence.
pub proof fn lemma_same_bytes_same_decoder(a: &Decoder, b: &Decoder)
    requires
        a.wf(),
        b.wf(),
        a.is_fresh(),
        b.is_fresh(),
        a.source() == b.source(),
    ensures
        a.format() == b.format(),
        a.spec_channels() == b.spec_channels(),
        a.spec_sample_rate() == b.spec_sample_rate(),
        a.spec_duration() == b.spec_duration(),
        a.spec_hint_low() == b.spec_hint_low(),
        a.spec_hint_high() == b.spec_hint_high(),
        a.spec_upcoming() == b.spec_upcoming(),
{
    match a.0 {
        DecoderImpl::Wav(w) => w.lemma_wf(),
        DecoderImpl::Vorbis(v) => v.lemma_wf(),
        DecoderImpl::Flac(f) => f.lemma_wf(),
    }
    match b.0 {
        DecoderImpl::Wav(w) => w.lemma_wf(),
        DecoderImpl::Vorbis(v) => v.lemma_wf(),
        DecoderImpl::Flac(f) => f.lemma_wf(),
    }
}

} // verus!
