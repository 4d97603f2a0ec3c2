//! Ogg Vorbis input, read packet by packet through lewton.
use vstd::prelude::*;
use crate::codecs::{open_vorbis, read_vorbis_packet, vorbis_header, vorbis_packets, VorbisStream};

verus! {

/// The samples of the packets from the `i`-th on, one packet after another.
pub open spec fn samples_from(packets: Seq<Seq<i16>>, i: int) -> Seq<i16>
    decreases packets.len() - i,
{
    if i < 0 || i >= packets.len() {
        Seq::empty()
    } else {
        packets[i] + samples_from(packets, i + 1)
    }
}

/// Decodes Vorbis packets and hands out their interleaved samples.
pub struct VorbisDecoder {
    reader: VorbisStream,
    packet: Vec<i16>,
    off: usize,
    channels: u8,
    sample_rate: u32,
    done: bool,
    bytes: Ghost<Seq<u8>>,
}

impl VorbisDecoder {
    pub closed spec fn source(&self) -> Seq<u8> {
        self.bytes@
    }

    pub closed spec fn spec_channels(&self) -> u8 {
        self.channels
    }

    pub closed spec fn spec_sample_rate(&self) -> u32 {
        self.sample_rate
    }

    /// The current packet's samples, interleaved.
    pub closed spec fn spec_packet(&self) -> Seq<i16> {
        self.packet@
    }

    /// How many samples of the current packet were handed out.
    pub closed spec fn spec_offset(&self) -> int {
        self.off as int
    }

    /// Whether the stream has ended for good.
    pub closed spec fn spec_done(&self) -> bool {
        self.done
    }

    /// The samples `next` hands out from here on: the rest of the current
    /// packet, then those of the packets lewton has still to decode.
    pub closed spec fn spec_upcoming(&self) -> Seq<i16> {
        if self.done {
            Seq::empty()
        } else {
            self.packet@.subrange(self.off as int, self.packet@.len() as int)
                + samples_from(vorbis_packets(self.bytes@), self.reader.pos() as int)
        }
    }

    pub closed spec fn wf(&self) -> bool {
        &&& vorbis_header(self.bytes@) == Some((self.channels, self.sample_rate))
        &&& self.reader.source() == self.bytes@
        &&& !self.done ==> self.reader.pos() <= vorbis_packets(self.bytes@).len()
        &&& self.done ==> self.packet@.len() == 0 && self.off == 0
        &&& self.channels > 0
        &&& self.sample_rate > 0
        &&& self.off <= self.packet@.len()
    }

    /// What well-formedness gives a caller: the header facts and a position
    /// inside the current packet.
    pub proof fn lemma_wf(&self)
        requires
            self.wf(),
        ensures
            vorbis_header(self.source()) == Some((self.spec_channels(), self.spec_sample_rate())),
            0 <= self.spec_offset() <= self.spec_packet().len(),
            self.spec_packet().len() - self.spec_offset() <= self.spec_upcoming().len(),
            self.spec_done() ==> self.spec_packet().len() == 0,
            self.spec_channels() >= 1,
            self.spec_sample_rate() >= 1,
    {
        if !self.done {
            assert(self.spec_upcoming().len() >= self.packet@.subrange(self.off as int, self.packet@.len() as int).len());
        }
    }

    /// Accepts `data` as Ogg Vorbis, or declines it; `data` is left as it was
    /// either way.
    pub fn try_new(data: &Vec<u8>) -> (r: Option<VorbisDecoder>)
        ensures
            r.is_some() == vorbis_header(data@).is_some(),
            r matches Some(d) ==> {
                &&& d.wf()
                &&& d.source() == data@
                &&& vorbis_header(data@) == Some((d.spec_channels(), d.spec_sample_rate()))
                &&& d.spec_packet().len() == 0
                &&& !d.spec_done()
                &&& d.spec_upcoming() == samples_from(vorbis_packets(data@), 0)
            },
    {
        match open_vorbis(data) {
            Some((reader, channels, sample_rate)) => Some(VorbisDecoder {
                reader,
                packet: Vec::new(),
                off: 0,
                channels,
                sample_rate,
                done: false,
                bytes: Ghost(data@),
            }),
            None => None,
        }
    }

    /// The next sample; `None` once the stream has ended, and from then on.
    pub fn next(&mut self) -> (r: Option<i16>)
        requires
            old(self).wf(),
        ensures
            final(self).wf(),
            final(self).source() == old(self).source(),
            final(self).spec_channels() == old(self).spec_channels(),
            final(self).spec_sample_rate() == old(self).spec_sample_rate(),
            r == (if old(self).spec_upcoming().len() > 0 {
                Some(old(self).spec_upcoming()[0])
            } else {
                None::<i16>
            }),
            final(self).spec_upcoming() == (if old(self).spec_upcoming().len() > 0 {
                old(self).spec_upcoming().drop_first()
            } else {
                Seq::<i16>::empty()
            }),
            r.is_none() ==> final(self).spec_done(),
            !old(self).spec_done() && old(self).spec_offset() < old(self).spec_packet().len() ==> {
                &&& final(self).spec_packet() == old(self).spec_packet()
                &&& final(self).spec_offset() == old(self).spec_offset() + 1
            },
    {
        if self.done {
            return None;
        }
        let ghost packets = vorbis_packets(self.bytes@);
        while self.off >= self.packet.len()
            invariant
                self.wf(),
                !self.done,
                packets == vorbis_packets(self.bytes@),
                self.bytes == old(self).bytes,
                self.channels == old(self).channels,
                self.sample_rate == old(self).sample_rate,
                self.spec_upcoming() == old(self).spec_upcoming(),
                old(self).off < old(self).packet@.len() ==> self.packet@ == old(self).packet@ && self.off == old(self).off,
            decreases packets.len() - self.reader.pos(),
        {
            let ghost p = self.reader.pos() as int;
            assert(self.packet@.subrange(self.off as int, self.packet@.len() as int) =~= Seq::<i16>::empty());
            assert(self.spec_upcoming() =~= samples_from(packets, p));
            match read_vorbis_packet(&mut self.reader) {
                Some(samples) => {
                    self.packet = samples;
                    self.off = 0;
                    assert(self.packet@.subrange(0, self.packet@.len() as int) =~= self.packet@);
                },
                None => {
                    self.done = true;
                    self.packet = Vec::new();
                    self.off = 0;
                    return None;
                },
            }
        }
        let ghost before = self.spec_upcoming();
        let s = self.packet[self.off];
        self.off = self.off + 1;
        assert(before[0] == s);
        assert(self.spec_upcoming() =~= before.drop_first());
        Some(s)
    }

    /// Samples left in the current packet.
    pub fn current_frame_len(&self) -> (r: Option<usize>)
        requires
            self.wf(),
        ensures
            r matches Some(n) && n == self.spec_packet().len() - self.spec_offset(),
    {
        Some(self.packet.len() - self.off)
    }

    /// At least the samples left in the current packet; no upper bound.
    pub fn size_hint(&self) -> (r: (usize, Option<usize>))
        requires
            self.wf(),
        ensures
            r.0 == self.spec_packet().len() - self.spec_offset(),
            r.1.is_none(),
    {
        (self.packet.len() - self.off, None)
    }

    pub fn channels(&self) -> (r: u8)
        ensures
            r == self.spec_channels(),
    {
        self.channels
    }

    pub fn samples_rate(&self) -> (r: u32)
        ensures
            r == self.spec_sample_rate(),
    {
        self.sample_rate
    }
}

} // verus!
