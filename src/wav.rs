//! WAV input, read through hound.
use vstd::prelude::*;
use crate::codecs::{open_wav, read_wav_sample, wav_header, wav_samples, WavStream};
use crate::timing::{duration_of, duration_parts, NANOS_PER_SEC};

verus! {

/// Decodes the samples of a WAV data chunk, counting down the samples that the
/// header announced.
pub struct WavDecoder {
    reader: WavStream,
    channels: u16,
    sample_rate: u32,
    len: u32,
    remaining: u32,
    bytes: Ghost<Seq<u8>>,
}

impl WavDecoder {
    /// The bytes the decoder was opened on.
    pub closed spec fn source(&self) -> Seq<u8> {
        self.bytes@
    }

    pub closed spec fn spec_channels(&self) -> u16 {
        self.channels
    }

    pub closed spec fn spec_sample_rate(&self) -> u32 {
        self.sample_rate
    }

    /// Number of samples, all channels counted, that the header announced.
    pub closed spec fn spec_len(&self) -> u32 {
        self.len
    }

    /// Number of samples not yet handed out.
    pub closed spec fn spec_remaining(&self) -> u32 {
        self.remaining
    }

    /// The samples `next` hands out from here on: hound's samples from the
    /// current position up to the end of the announced count, or to the first
    /// one hound cannot read.
    pub closed spec fn spec_upcoming(&self) -> Seq<i16> {
        if self.remaining == 0 {
            Seq::empty()
        } else {
            let s = wav_samples(self.bytes@);
            let end = if s.len() < self.len as nat { s.len() as int } else { self.len as int };
            s.subrange(self.len - self.remaining, end)
        }
    }

    pub closed spec fn wf(&self) -> bool {
        &&& wav_header(self.bytes@) == Some((self.channels, self.sample_rate, self.len))
        &&& self.reader.source() == self.bytes@
        &&& self.remaining > 0 ==> self.reader.pos() == self.len - self.remaining
            && self.reader.pos() <= wav_samples(self.bytes@).len()
        &&& self.channels > 0
        &&& self.len % (self.channels as u32) == 0
        &&& self.remaining <= self.len
    }

    /// What well-formedness gives a caller: the header facts and the count of
    /// samples left.
    pub proof fn lemma_wf(&self)
        requires
            self.wf(),
        ensures
            wav_header(self.source()) == Some((self.spec_channels(), self.spec_sample_rate(), self.spec_len())),
            self.spec_channels() > 0,
            self.spec_len() % (self.spec_channels() as u32) == 0,
            self.spec_remaining() <= self.spec_len(),
            self.spec_upcoming().len() <= self.spec_remaining(),
            wav_samples(self.source()).len() >= self.spec_len() ==> self.spec_upcoming().len() == self.spec_remaining(),
    {
    }

    /// Accepts `data` as WAV, or declines it; `data` is left as it was either way.
    pub fn try_new(data: &Vec<u8>) -> (r: Option<WavDecoder>)
        ensures
            r.is_some() == wav_header(data@).is_some(),
            r matches Some(d) ==> {
                &&& d.wf()
                &&& d.source() == data@
                &&& wav_header(data@) == Some((d.spec_channels(), d.spec_sample_rate(), d.spec_len()))
                &&& d.spec_remaining() == d.spec_len()
                &&& d.spec_upcoming() == wav_samples(data@)
            },
    {
        match open_wav(data) {
            Some((reader, channels, sample_rate, len)) => Some(WavDecoder {
                reader,
                channels,
                sample_rate,
                len,
                remaining: len,
                bytes: Ghost(data@),
            }),
            None => None,
        }
    }

    /// The next sample; `None` once the announced samples are spent or a sample
    /// cannot be read, and from then on.
    pub fn next(&mut self) -> (r: Option<i16>)
        requires
            old(self).wf(),
        ensures
            final(self).wf(),
            final(self).source() == old(self).source(),
            final(self).spec_channels() == old(self).spec_channels(),
            final(self).spec_sample_rate() == old(self).spec_sample_rate(),
            final(self).spec_len() == old(self).spec_len(),
            old(self).spec_remaining() == 0 ==> r.is_none(),
            r.is_some() ==> final(self).spec_remaining() == old(self).spec_remaining() - 1,
            r.is_none() ==> final(self).spec_remaining() == 0,
            r == (if old(self).spec_upcoming().len() > 0 {
                Some(old(self).spec_upcoming()[0])
            } else {
                None::<i16>
            }),
            final(self).spec_upcoming() == (if old(self).spec_upcoming().len() > 0 {
                old(self).spec_upcoming().drop_first()
            } else {
                Seq::<i16>::empty()
            }),
    {
        if self.remaining == 0 {
            return None;
        }
        match read_wav_sample(&mut self.reader) {
            Some(s) => {
                self.remaining = self.remaining - 1;
                assert(self.spec_upcoming() =~= old(self).spec_upcoming().drop_first());
                Some(s)
            },
            None => {
                self.remaining = 0;
                assert(old(self).spec_upcoming() =~= Seq::<i16>::empty());
                None
            },
        }
    }

    /// Bounds on the samples left: exactly the count the header still owes.
    pub fn size_hint(&self) -> (r: (usize, Option<usize>))
        requires
            self.wf(),
        ensures
            r.0 == self.spec_remaining(),
            r.1 == Some(self.spec_remaining() as usize),
    {
        let n = self.remaining as usize;
        (n, Some(n))
    }

    pub fn channels(&self) -> (r: u16)
        ensures
            r == self.spec_channels(),
    {
        self.channels
    }

    pub fn samples_rate(&self) -> (r: u32)
        ensures
            r == self.spec_sample_rate(),
    {
        self.sample_rate
    }

    /// The length of the data chunk in time: its frames over the sample rate.
    pub fn duration_parts(&self) -> (r: Option<(u64, u32)>)
        requires
            self.wf(),
        ensures
            r.is_some() == self.spec_duration().is_some(),
            r matches Some(p) ==> self.spec_duration() == Some((p.0 as nat, p.1 as nat)),
            r matches Some(p) ==> p.1 < NANOS_PER_SEC,
    {
        let frames = self.len / (self.channels as u32);
        duration_of(frames as u64, self.sample_rate)
    }

    pub open spec fn spec_duration(&self) -> Option<(nat, nat)> {
        duration_parts(self.spec_len() as nat / self.spec_channels() as nat, self.spec_sample_rate() as nat)
    }
}

} // verus!
