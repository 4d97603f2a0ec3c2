//! The outside decoders this library delegates to: hound for WAV, claxon for
//! FLAC and lewton for Ogg Vorbis. Each reader is opened on a copy of the input
//! held in an in-memory cursor, so a probe that fails leaves the caller's bytes
//! as they were.
use std::io::Cursor;
use vstd::prelude::*;

verus! {

#[verifier::external_type_specification]
#[verifier::external_body]
#[verifier::reject_recursive_types(T)]
pub struct ExCursor<T>(Cursor<T>);

#[verifier::external_type_specification]
#[verifier::external_body]
#[verifier::reject_recursive_types(R)]
pub struct ExWavReader<R>(hound::WavReader<R>);

/// A WAV reader over an in-memory copy of `source`, with the number of reads
/// made so far.
pub struct WavStream {
    reader: hound::WavReader<Cursor<Vec<u8>>>,
    src: Ghost<Seq<u8>>,
    pos: Ghost<nat>,
}

impl WavStream {
    pub closed spec fn source(&self) -> Seq<u8> {
        self.src@
    }

    pub closed spec fn pos(&self) -> nat {
        self.pos@
    }
}

/// A FLAC reader over an in-memory copy of the input. Claxon's reader type
/// bounds its parameter by `std::io::Read`, which Verus refuses in a type
/// declaration, so the reader is held opaquely here.
#[verifier::external_body]
pub struct FlacReaderBox {
    reader: claxon::FlacReader<Cursor<Vec<u8>>>,
}

/// A FLAC reader over an in-memory copy of `source`, with the number of reads
/// made so far.
pub struct FlacStream {
    inner: FlacReaderBox,
    src: Ghost<Seq<u8>>,
    pos: Ghost<nat>,
}

impl FlacStream {
    pub closed spec fn source(&self) -> Seq<u8> {
        self.src@
    }

    pub closed spec fn pos(&self) -> nat {
        self.pos@
    }
}

/// An Ogg Vorbis reader over an in-memory copy of the input, held opaquely for
/// the same reason as [`FlacStream`].
#[verifier::external_body]
pub struct VorbisReaderBox {
    reader: lewton::inside_ogg::OggStreamReader<Cursor<Vec<u8>>>,
}

/// An Ogg Vorbis reader over an in-memory copy of `source`, with the number of
/// reads made so far.
pub struct VorbisStream {
    inner: VorbisReaderBox,
    src: Ghost<Seq<u8>>,
    pos: Ghost<nat>,
}

impl VorbisStream {
    pub closed spec fn source(&self) -> Seq<u8> {
        self.src@
    }

    pub closed spec fn pos(&self) -> nat {
        self.pos@
    }
}

/// What hound reads from the RIFF/WAVE header of `bytes`: channel count,
/// sample rate and the number of samples in the data chunk (all channels
/// counted); `None` where hound does not accept the bytes as WAV.
pub uninterp spec fn wav_header(bytes: Seq<u8>) -> Option<(u16, u32, u32)>;

/// What claxon reads from the STREAMINFO block of `bytes`: channel count,
/// sample rate, bits per sample and the number of inter-channel samples if the
/// block states it; `None` where claxon does not accept the bytes as FLAC.
pub uninterp spec fn flac_header(bytes: Seq<u8>) -> Option<(u32, u32, u32, Option<u64>)>;

/// What lewton reads from the Vorbis identification header of `bytes`: channel
/// count and sample rate; `None` where lewton does not accept the bytes as an
/// Ogg Vorbis stream.
pub uninterp spec fn vorbis_header(bytes: Seq<u8>) -> Option<(u8, u32)>;

/// The samples that hound's `i16` sample iterator yields on `bytes`, in order,
/// up to the end of the data chunk or to the first one it cannot read.
pub uninterp spec fn wav_samples(bytes: Seq<u8>) -> Seq<i16>;

/// The blocks that claxon decodes from `bytes`, in order, up to the end of the
/// stream or to the first frame it cannot decode: each block's samples, one
/// channel after another, its length per channel and its channel count.
pub uninterp spec fn flac_blocks(bytes: Seq<u8>) -> Seq<(Seq<i32>, u32, u32)>;

/// The interleaved packets that lewton decodes from `bytes`, in order, up to the
/// end of the stream or to the first packet it cannot decode.
pub uninterp spec fn vorbis_packets(bytes: Seq<u8>) -> Seq<Seq<i16>>;

/// Relies on `hound::WavReader::new`, which reads the header up to the data
/// chunk, and on `WavReader::spec` and `WavReader::len` for what it read. `new`
/// refuses zero channels and a data chunk whose sample count is not a multiple
/// of the channel count.
#[verifier::external_body]
pub(crate) fn open_wav(bytes: &Vec<u8>) -> (r: Option<(WavStream, u16, u32, u32)>)
    ensures
        r.is_some() == wav_header(bytes@).is_some(),
        r matches Some(v) ==> wav_header(bytes@) == Some((v.1, v.2, v.3)),
        r matches Some(v) ==> v.1 > 0 && v.3 % (v.1 as u32) == 0,
        r matches Some(v) ==> v.0.source() == bytes@ && v.0.pos() == 0,
        r matches Some(v) ==> wav_samples(bytes@).len() <= v.3,
{
    match hound::WavReader::new(Cursor::new(bytes.clone())) {
        Ok(reader) => {
            let spec = reader.spec();
            let len = reader.len();
            Some((WavStream { reader, src: Ghost(bytes@), pos: Ghost(0) }, spec.channels, spec.sample_rate, len))
        },
        Err(_) => None,
    }
}

/// Relies on hound's `WavSamples::next`: the next sample of the data chunk as an
/// `i16`, or `None` at its end or when it cannot be read as one. Each call
/// continues where the last one stopped.
#[verifier::external_body]
pub(crate) fn read_wav_sample(stream: &mut WavStream) -> (r: Option<i16>)
    requires
        old(stream).pos() <= wav_samples(old(stream).source()).len(),
    ensures
        final(stream).source() == old(stream).source(),
        final(stream).pos() == old(stream).pos() + 1,
        r == (if old(stream).pos() < wav_samples(old(stream).source()).len() {
            Some(wav_samples(old(stream).source())[old(stream).pos() as int])
        } else {
            None::<i16>
        }),
{
    stream.pos = Ghost(stream.pos@ + 1);
    match stream.reader.samples::<i16>().next() {
        Some(Ok(s)) => Some(s),
        _ => None,
    }
}

/// Relies on `claxon::FlacReader::new`, which reads the stream header and the
/// metadata blocks, and on `FlacReader::streaminfo` for what it read. Claxon
/// reads the channel count from three bits plus one, the bit depth from five
/// bits plus one, and refuses a sample rate of zero or above 655350 Hz.
#[verifier::external_body]
pub(crate) fn open_flac(bytes: &Vec<u8>) -> (r: Option<(FlacStream, u32, u32, u32, Option<u64>)>)
    ensures
        r.is_some() == flac_header(bytes@).is_some(),
        r matches Some(v) ==> flac_header(bytes@) == Some((v.1, v.2, v.3, v.4)),
        r matches Some(v) ==> 1 <= v.1 <= 8 && 1 <= v.2 <= 655350 && 1 <= v.3 <= 32,
        r matches Some(v) ==> v.0.source() == bytes@ && v.0.pos() == 0,
{
    match claxon::FlacReader::new(Cursor::new(bytes.clone())) {
        Ok(reader) => {
            let info = reader.streaminfo();
            let inner = FlacReaderBox { reader };
            Some((FlacStream { inner, src: Ghost(bytes@), pos: Ghost(0) }, info.channels, info.sample_rate, info.bits_per_sample, info.samples))
        },
        Err(_) => None,
    }
}

/// Relies on claxon's `FrameReader::read_next_or_eof`, reached through
/// `FlacReader::blocks`: the next block's samples, one channel after another,
/// with its length per channel and its channel count; `None` at the end of the
/// stream or on a frame it cannot decode. `buffer` is handed over for reuse;
/// claxon overwrites every sample it keeps.
#[verifier::external_body]
pub(crate) fn read_flac_block(stream: &mut FlacStream, buffer: Vec<i32>) -> (r: Option<(Vec<i32>, u32, u32)>)
    requires
        old(stream).pos() <= flac_blocks(old(stream).source()).len(),
    ensures
        final(stream).source() == old(stream).source(),
        final(stream).pos() == old(stream).pos() + 1,
        r.is_some() == (old(stream).pos() < flac_blocks(old(stream).source()).len()),
        r matches Some(v) ==> flac_blocks(old(stream).source())[old(stream).pos() as int] == (v.0@, v.1, v.2),
{
    stream.pos = Ghost(stream.pos@ + 1);
    match stream.inner.reader.blocks().read_next_or_eof(buffer) {
        Ok(Some(block)) => {
            let duration = block.duration();
            let channels = block.channels();
            Some((block.into_buffer(), duration, channels))
        },
        _ => None,
    }
}

/// Relies on `lewton::inside_ogg::OggStreamReader::new`, which reads the three
/// Vorbis headers, and on its `ident_hdr` for what it read. Lewton refuses a
/// channel count or a sample rate of zero.
#[verifier::external_body]
pub(crate) fn open_vorbis(bytes: &Vec<u8>) -> (r: Option<(VorbisStream, u8, u32)>)
    ensures
        r.is_some() == vorbis_header(bytes@).is_some(),
        r matches Some(v) ==> vorbis_header(bytes@) == Some((v.1, v.2)),
        r matches Some(v) ==> v.1 > 0 && v.2 > 0,
        r matches Some(v) ==> v.0.source() == bytes@ && v.0.pos() == 0,
{
    match lewton::inside_ogg::OggStreamReader::new(Cursor::new(bytes.clone())) {
        Ok(reader) => {
            let channels = reader.ident_hdr.audio_channels;
            let rate = reader.ident_hdr.audio_sample_rate;
            let inner = VorbisReaderBox { reader };
            Some((VorbisStream { inner, src: Ghost(bytes@), pos: Ghost(0) }, channels, rate))
        },
        Err(_) => None,
    }
}

/// Relies on `OggStreamReader::read_dec_packet_itl`: the next decoded packet
/// with its channels interleaved; `None` at the end of the stream or on a
/// packet it cannot decode.
#[verifier::external_body]
pub(crate) fn read_vorbis_packet(stream: &mut VorbisStream) -> (r: Option<Vec<i16>>)
    requires
        old(stream).pos() <= vorbis_packets(old(stream).source()).len(),
    ensures
        final(stream).source() == old(stream).source(),
        final(stream).pos() == old(stream).pos() + 1,
        r.is_some() == (old(stream).pos() < vorbis_packets(old(stream).source()).len()),
        r matches Some(v) ==> vorbis_packets(old(stream).source())[old(stream).pos() as int] == v@,
{
    stream.pos = Ghost(stream.pos@ + 1);
    match stream.inner.reader.read_dec_packet_itl() {
        Ok(Some(packet)) => Some(packet),
        _ => None,
    }
}

/// Relies on `std::time::Duration::new`, which panics only when the
/// nanoseconds carry over into a seconds count that overflows.
#[verifier::external_body]
pub(crate) fn make_duration(secs: u64, nanos: u32) -> (r: std::time::Duration)
    requires
        nanos < 1_000_000_000,
{
    std::time::Duration::new(secs, nanos)
}

} // verus!
