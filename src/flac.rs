//! FLAC input, read block by block through claxon.
use vstd::prelude::*;
use vstd::arithmetic::power2::{pow2, lemma_pow2_unfold, lemma2_to64, lemma_pow2_adds};
use vstd::arithmetic::div_mod::lemma_hoist_over_denominator;
use crate::codecs::{flac_blocks, flac_header, open_flac, read_flac_block, FlacStream};
use crate::timing::{duration_of, duration_parts, NANOS_PER_SEC};

verus! {

/// `v` held to the range of an `i16`.
pub open spec fn clamp16(v: int) -> int {
    if v < -32768 {
        -32768
    } else if v > 32767 {
        32767
    } else {
        v
    }
}

/// A sample of `bits` bits brought to 16 bits: shifted left when it has fewer,
/// shifted right (rounding down) when it has more, then held to the `i16` range.
pub open spec fn scale_to_16(raw: int, bits: nat) -> int {
    if bits == 16 {
        clamp16(raw)
    } else if bits < 16 {
        clamp16(raw * pow2((16 - bits) as nat))
    } else {
        clamp16(raw / (pow2((bits - 16) as nat) as int))
    }
}

/// Where the `off`-th interleaved sample lies in a block that stores its
/// `channels` channels one after another, `channel_len` samples each.
pub open spec fn interleaved_index(off: int, channels: int, channel_len: int) -> int {
    (off % channels) * channel_len + off / channels
}

/// The samples of a decoded block, interleaved and brought to 16 bits; `None`
/// where the block's channel count differs from the stream's or its buffer
/// does not hold one run of samples per channel.
pub open spec fn block_samples(b: (Seq<i32>, u32, u32), channels: u32, bits: u32) -> Option<Seq<i16>> {
    if b.2 != channels || b.0.len() != b.1 as int * b.2 as int {
        None
    } else {
        Some(Seq::new(b.0.len(), |j: int| scale_to_16(
            b.0[interleaved_index(j, channels as int, b.1 as int)] as int,
            bits as nat,
        ) as i16))
    }
}

/// The samples of the blocks from the `i`-th on, up to the first block that
/// `block_samples` refuses.
pub open spec fn samples_from(blocks: Seq<(Seq<i32>, u32, u32)>, i: int, channels: u32, bits: u32) -> Seq<i16>
    decreases blocks.len() - i,
{
    if i < 0 || i >= blocks.len() {
        Seq::empty()
    } else {
        match block_samples(blocks[i], channels, bits) {
            Some(s) => s + samples_from(blocks, i + 1, channels, bits),
            None => Seq::empty(),
        }
    }
}

fn power_of_two(k: u32) -> (r: u64)
    requires
        k <= 16,
    ensures
        r == pow2(k as nat),
        1 <= r <= 65536,
{
    let mut p: u64 = 1;
    let mut i: u32 = 0;
    proof {
        lemma2_to64();
    }
    while i < k
        invariant
            i <= k <= 16,
            p == pow2(i as nat),
            1 <= p <= 65536,
            pow2(16) == 65536,
        decreases k - i,
    {
        proof {
            lemma_pow2_unfold((i + 1) as nat);
            lemma_pow2_adds((i + 1) as nat, (16 - (i + 1)) as nat);
            assert(pow2((16 - (i + 1)) as nat) >= 1) by {
                vstd::arithmetic::power2::lemma_pow2_pos((16 - (i + 1)) as nat);
            }
            assert(pow2((i + 1) as nat) <= 65536) by (nonlinear_arith)
                requires
                    pow2((i + 1) as nat) * pow2((16 - (i + 1)) as nat) == 65536,
                    pow2((16 - (i + 1)) as nat) >= 1;
        }
        p = p * 2;
        i = i + 1;
    }
    p
}

fn clamp_to_i16(v: i64) -> (r: i16)
    ensures
        r == clamp16(v as int),
{
    if v < -32768 {
        -32768
    } else if v > 32767 {
        32767
    } else {
        v as i16
    }
}

/// Brings a decoded sample of `bits` bits to 16 bits.
pub fn scale_sample(raw: i32, bits: u32) -> (r: i16)
    requires
        1 <= bits <= 32,
    ensures
        r == scale_to_16(raw as int, bits as nat),
{
    if bits == 16 {
        clamp_to_i16(raw as i64)
    } else if bits < 16 {
        let p = power_of_two(16 - bits);
        assert(-2147483648 * 65536 <= raw * p <= 2147483647 * 65536) by (nonlinear_arith)
            requires -2147483648 <= raw <= 2147483647, 1 <= p <= 65536;
        clamp_to_i16(raw as i64 * p as i64)
    } else {
        let d = power_of_two(bits - 16);
        let shifted: u64 = (raw as i64 + 2147483648) as u64;
        let q = shifted / d;
        proof {
            lemma_pow2_adds((bits - 16) as nat, (31 - (bits - 16)) as nat);
            lemma2_to64();
            let e = (bits - 16) as nat;
            let j = pow2((31 - e) as nat) as int;
            assert(e + (31 - e) as nat == 31);
            assert(pow2(31) == 2147483648);
            assert(2147483648int == j * d);
            lemma_hoist_over_denominator(raw as int, j, d as nat);
            assert(2147483648int / (d as int) == j) by (nonlinear_arith)
                requires 2147483648int == j * d, d > 0;
        }
        clamp_to_i16(q as i64 - (2147483648 / d) as i64)
    }
}

/// Decodes FLAC blocks and hands their samples out interleaved.
pub struct FlacDecoder {
    reader: FlacStream,
    block: Vec<i32>,
    off: usize,
    channel_len: usize,
    channels: u32,
    sample_rate: u32,
    bits: u32,
    total: Option<u64>,
    done: bool,
    bytes: Ghost<Seq<u8>>,
}

impl FlacDecoder {
    pub closed spec fn source(&self) -> Seq<u8> {
        self.bytes@
    }

    pub closed spec fn spec_channels(&self) -> u32 {
        self.channels
    }

    pub closed spec fn spec_sample_rate(&self) -> u32 {
        self.sample_rate
    }

    pub closed spec fn spec_bits(&self) -> u32 {
        self.bits
    }

    /// Inter-channel samples in the stream, where STREAMINFO states them.
    pub closed spec fn spec_total(&self) -> Option<u64> {
        self.total
    }

    /// The current block, channel after channel.
    pub closed spec fn spec_block(&self) -> Seq<i32> {
        self.block@
    }

    /// How many samples of the current block were handed out.
    pub closed spec fn spec_offset(&self) -> int {
        self.off as int
    }

    pub closed spec fn spec_channel_len(&self) -> int {
        self.channel_len as int
    }

    /// Whether the stream has ended for good.
    pub closed spec fn spec_done(&self) -> bool {
        self.done
    }

    /// The current block's samples, interleaved and brought to 16 bits.
    pub closed spec fn spec_current(&self) -> Seq<i16> {
        Seq::new(self.block@.len(), |j: int| scale_to_16(
            self.block@[interleaved_index(j, self.channels as int, self.channel_len as int)] as int,
            self.bits as nat,
        ) as i16)
    }

    /// The samples `next` hands out from here on: the rest of the current
    /// block, then those of the blocks claxon has still to decode.
    pub closed spec fn spec_upcoming(&self) -> Seq<i16> {
        if self.done {
            Seq::empty()
        } else {
            self.spec_current().subrange(self.off as int, self.block@.len() as int)
                + samples_from(flac_blocks(self.bytes@), self.reader.pos() as int, self.channels, self.bits)
        }
    }

    pub closed spec fn wf(&self) -> bool {
        &&& flac_header(self.bytes@) == Some((self.channels, self.sample_rate, self.bits, self.total))
        &&& self.reader.source() == self.bytes@
        &&& !self.done ==> self.reader.pos() <= flac_blocks(self.bytes@).len()
        &&& self.done ==> self.block@.len() == 0 && self.off == 0
        &&& 1 <= self.sample_rate
        &&& 1 <= self.channels <= 8
        &&& 1 <= self.bits <= 32
        &&& self.block@.len() == self.channel_len * self.channels
        &&& self.off <= self.block@.len()
    }

    pub open spec fn spec_duration(&self) -> Option<(nat, nat)> {
        match self.spec_total() {
            Some(n) => duration_parts(n as nat, self.spec_sample_rate() as nat),
            None => None,
        }
    }

    /// What well-formedness gives a caller: the header facts and a position
    /// inside the current block.
    pub proof fn lemma_wf(&self)
        requires
            self.wf(),
        ensures
            flac_header(self.source()) == Some((self.spec_channels(), self.spec_sample_rate(), self.spec_bits(), self.spec_total())),
            0 <= self.spec_offset() <= self.spec_block().len(),
            self.spec_block().len() - self.spec_offset() <= self.spec_upcoming().len(),
            self.spec_done() ==> self.spec_block().len() == 0,
            1 <= self.spec_channels() <= 8,
            1 <= self.spec_sample_rate(),
    {
        if !self.done {
            assert(self.spec_upcoming().len() >= self.spec_current().subrange(self.off as int, self.block@.len() as int).len());
        }
    }

    /// Accepts `data` as FLAC, or declines it; `data` is left as it was either way.
    pub fn try_new(data: &Vec<u8>) -> (r: Option<FlacDecoder>)
        ensures
            r.is_some() == flac_header(data@).is_some(),
            r matches Some(d) ==> {
                &&& d.wf()
                &&& d.source() == data@
                &&& flac_header(data@) == Some((d.spec_channels(), d.spec_sample_rate(), d.spec_bits(), d.spec_total()))
                &&& d.spec_block().len() == 0
                &&& !d.spec_done()
                &&& d.spec_upcoming() == samples_from(flac_blocks(data@), 0, d.spec_channels(), d.spec_bits())
            },
    {
        match open_flac(data) {
            Some((reader, channels, sample_rate, bits, total)) => Some(FlacDecoder {
                reader,
                block: Vec::new(),
                off: 0,
                channel_len: 0,
                channels,
                sample_rate,
                bits,
                total,
                done: false,
                bytes: Ghost(data@),
            }),
            None => None,
        }
    }

    fn finish(&mut self)
        requires
            old(self).wf(),
        ensures
            final(self).wf(),
            final(self).done,
            final(self).bytes == old(self).bytes,
            final(self).channels == old(self).channels,
            final(self).sample_rate == old(self).sample_rate,
            final(self).bits == old(self).bits,
            final(self).total == old(self).total,
    {
        self.done = true;
        self.block = Vec::new();
        self.off = 0;
        self.channel_len = 0;
    }

    /// The next sample; `None` once the stream has ended, and from then on.
    pub fn next(&mut self) -> (r: Option<i16>)
        requires
            old(self).wf(),
        ensures
            final(self).wf(),
            final(self).source() == old(self).source(),
            final(self).spec_channels() == old(self).spec_channels(),
            final(self).spec_sample_rate() == old(self).spec_sample_rate(),
            final(self).spec_bits() == old(self).spec_bits(),
            final(self).spec_total() == old(self).spec_total(),
            r == (if old(self).spec_upcoming().len() > 0 {
                Some(old(self).spec_upcoming()[0])
            } else {
                None::<i16>
            }),
            final(self).spec_upcoming() == (if old(self).spec_upcoming().len() > 0 {
                old(self).spec_upcoming().drop_first()
            } else {
                Seq::<i16>::empty()
            }),
            r.is_none() ==> final(self).spec_done(),
            !old(self).spec_done() && old(self).spec_offset() < old(self).spec_block().len() ==> {
                &&& final(self).spec_block() == old(self).spec_block()
                &&& final(self).spec_offset() == old(self).spec_offset() + 1
            },
    {
        if self.done {
            return None;
        }
        let ghost blocks = flac_blocks(self.bytes@);
        while self.off >= self.block.len()
            invariant
                self.wf(),
                !self.done,
                blocks == flac_blocks(self.bytes@),
                self.bytes == old(self).bytes,
                self.channels == old(self).channels,
                self.sample_rate == old(self).sample_rate,
                self.bits == old(self).bits,
                self.total == old(self).total,
                self.spec_upcoming() == old(self).spec_upcoming(),
                old(self).off < old(self).block@.len() ==> self.block@ == old(self).block@ && self.off == old(self).off,
            decreases blocks.len() - self.reader.pos(),
        {
            let ghost p = self.reader.pos() as int;
            assert(self.spec_current().subrange(self.off as int, self.block@.len() as int) =~= Seq::<i16>::empty());
            assert(self.spec_upcoming() =~= samples_from(blocks, p, self.channels, self.bits));
            let mut buffer: Vec<i32> = Vec::new();
            std::mem::swap(&mut buffer, &mut self.block);
            self.off = 0;
            self.channel_len = 0;
            match read_flac_block(&mut self.reader, buffer) {
                Some((samples, duration, channels)) => {
                    assert(duration as u64 * channels as u64 <= 0xffff_ffffu64 * 0xffff_ffffu64) by (nonlinear_arith)
                        requires duration <= 0xffff_ffffu32, channels <= 0xffff_ffffu32;
                    if channels != self.channels || samples.len() as u64 != duration as u64 * channels as u64 {
                        assert(block_samples(blocks[p], self.channels, self.bits).is_none());
                        self.finish();
                        return None;
                    }
                    self.block = samples;
                    self.channel_len = duration as usize;
                    assert(block_samples(blocks[p], self.channels, self.bits) == Some(self.spec_current()));
                    assert(self.spec_current().subrange(0, self.block@.len() as int) =~= self.spec_current());
                },
                None => {
                    self.done = true;
                    return None;
                },
            }
        }
        let ch = self.channels as usize;
        let off = self.off;
        let cl = self.channel_len;
        assert((off % ch) * cl + off / ch < ch * cl && (off % ch) * cl <= ch * cl) by (nonlinear_arith)
            requires off < ch * cl, ch >= 1;
        let idx = (off % ch) * cl + off / ch;
        assert(idx == interleaved_index(off as int, self.channels as int, cl as int));
        let raw = self.block[idx];
        let ghost before = self.spec_upcoming();
        self.off = off + 1;
        let s = scale_sample(raw, self.bits);
        assert(s as int == scale_to_16(raw as int, self.bits as nat));
        assert(before[0] == s);
        assert(self.spec_upcoming() =~= before.drop_first());
        Some(s)
    }

    /// Samples left in the current block.
    pub fn current_frame_len(&self) -> (r: Option<usize>)
        requires
            self.wf(),
        ensures
            r matches Some(n) && n == self.spec_block().len() - self.spec_offset(),
    {
        Some(self.block.len() - self.off)
    }

    /// At least the samples left in the current block; no upper bound.
    pub fn size_hint(&self) -> (r: (usize, Option<usize>))
        requires
            self.wf(),
        ensures
            r.0 == self.spec_block().len() - self.spec_offset(),
            r.1.is_none(),
    {
        (self.block.len() - self.off, None)
    }

    pub fn channels(&self) -> (r: u32)
        ensures
            r == self.spec_channels(),
    {
        self.channels
    }

    pub fn samples_rate(&self) -> (r: u32)
        ensures
            r == self.spec_sample_rate(),
    {
        self.sample_rate
    }

    /// The stream's length in time, where STREAMINFO states its sample count.
    pub fn duration_parts(&self) -> (r: Option<(u64, u32)>)
        requires
            self.wf(),
        ensures
            r.is_some() == self.spec_duration().is_some(),
            r matches Some(p) ==> self.spec_duration() == Some((p.0 as nat, p.1 as nat)),
            r matches Some(p) ==> p.1 < NANOS_PER_SEC,
    {
        match self.total {
            Some(n) => duration_of(n, self.sample_rate),
            None => None,
        }
    }
}

} // verus!
