//! Sample source adapter: turns a PCM byte stream (1 or 2 channels, 8 or 16
//! bits per sample) into the normalized 12-bit words the PWM FIFO consumes,
//! one pair of words (left, right) per stereo sample.

use vstd::prelude::*;

verus! {

/// Normalized word for a 16-bit little-endian sample: the value is taken as
/// signed, offset to unsigned by +0x8000, and scaled from 16 to 12 bits.
pub open spec fn sample16_to_word(lo: u8, hi: u8) -> u32 {
    ((((lo as int) + 256 * (hi as int) + 0x8000) % 0x10000) / 16) as u32
}

/// Normalized word for an 8-bit sample: the byte is taken as unsigned and
/// scaled from 8 to 12 bits.
pub open spec fn sample8_to_word(b: u8) -> u32 {
    (16 * (b as int)) as u32
}

/// Bytes one channel's sample occupies in the stream.
pub open spec fn bytes_per_sample(bits: u32) -> int {
    if bits == 16 {
        2
    } else {
        1
    }
}

/// Bytes one frame (all channels of one sample instant) occupies.
pub open spec fn frame_bytes(channels: u32, bits: u32) -> int {
    channels * bytes_per_sample(bits)
}

/// Normalized word of the sample starting at byte `off` of the stream.
pub open spec fn word_at(data: Seq<u8>, off: int, bits: u32) -> u32 {
    if bits == 16 {
        sample16_to_word(data[off], data[off + 1])
    } else {
        sample8_to_word(data[off])
    }
}

/// Left output word of the `i`th frame read from position `pos`.
pub open spec fn left_word(data: Seq<u8>, pos: int, channels: u32, bits: u32, i: int) -> u32 {
    word_at(data, pos + i * frame_bytes(channels, bits), bits)
}

/// Right output word of the `i`th frame: the second channel's sample for a
/// stereo stream, the duplicated first channel's sample for a mono stream.
pub open spec fn right_word(data: Seq<u8>, pos: int, channels: u32, bits: u32, i: int) -> u32 {
    if channels == 2 {
        word_at(data, pos + i * frame_bytes(channels, bits) + bytes_per_sample(bits), bits)
    } else {
        left_word(data, pos, channels, bits, i)
    }
}

/// Number of words one refill writes: the full capacity while enough frames
/// remain, twice the remaining frame count when the stream runs out
/// mid-chunk.
pub open spec fn words_for(samples: u32, capacity: u32) -> int {
    if samples >= capacity / 2 {
        capacity as int
    } else {
        2 * samples
    }
}

/// `newbuf` is `oldbuf` with its first `words` entries replaced by the word
/// pairs of the frames read from byte `pos` of `data`, and the rest kept.
pub open spec fn chunk_filled(
    newbuf: Seq<u32>,
    oldbuf: Seq<u32>,
    data: Seq<u8>,
    pos: int,
    channels: u32,
    bits: u32,
    words: int,
) -> bool {
    &&& newbuf.len() == oldbuf.len()
    &&& forall|j: int|
        0 <= j < words ==> #[trigger] newbuf[j] == (if j % 2 == 0 {
            left_word(data, pos, channels, bits, j / 2)
        } else {
            right_word(data, pos, channels, bits, j / 2)
        })
    &&& forall|j: int| words <= j < newbuf.len() ==> #[trigger] newbuf[j] == oldbuf[j]
}

/// Law of normalization: every word handed to the PWM FIFO fits 12 bits,
/// whatever the stream holds, for both supported bit depths.
pub proof fn lemma_word_is_12_bit(data: Seq<u8>, off: int, bits: u32)
    requires
        bits == 8 || bits == 16,
    ensures
        word_at(data, off, bits) < 0x1000,
{
}

/// Converts one 16-bit little-endian sample into its normalized word.
pub fn convert_sample16(lo: u8, hi: u8) -> (r: u32)
    ensures
        r == sample16_to_word(lo, hi),
        r < 0x1000,
{
    let v: u32 = (lo as u32) | ((hi as u32) << 8u32);
    assert((lo as u32) | ((hi as u32) << 8u32) == (lo as u32) + 256u32 * (hi as u32)
        && ((lo as u32) | ((hi as u32) << 8u32)) < 0x10000u32) by (bit_vector);
    let s: u32 = v + 0x8000;
    let w: u32 = s & 0xFFFF;
    assert(s & 0xFFFF == (s as int) % 0x10000 && (s & 0xFFFF) < 0x10000u32) by (bit_vector);
    let r = w >> 4u32;
    assert(w >> 4u32 == w as int / 16 && (w >> 4u32) < 0x1000u32) by (bit_vector)
        requires
            w < 0x10000u32,
    ;
    r
}

/// Converts one 8-bit sample into its normalized word.
pub fn convert_sample8(b: u8) -> (r: u32)
    ensures
        r == sample8_to_word(b),
        r < 0x1000,
{
    let v: u32 = (b as u32) << 4u32;
    assert((b as u32) << 4u32 == 16 * (b as int) && ((b as u32) << 4u32) < 0x1000u32)
        by (bit_vector);
    v
}

/// A PCM byte stream together with its read cursor and format: remaining
/// sample count, channel count (1 or 2) and bit depth (8 or 16). Consumed
/// strictly sequentially, never rewound.
pub struct PcmSource {
    /// The raw PCM bytes.
    pub data: Vec<u8>,
    /// Read position, in bytes, of the next sample.
    pub pos: usize,
    /// Sample instants (frames) still to be read.
    pub samples: u32,
    /// Channels per frame: 1 (mono) or 2 (stereo).
    pub channels: u32,
    /// Bits per single channel's sample: 8 or 16.
    pub bits: u32,
}

impl PcmSource {
    /// The stream's format is valid while samples remain, and the remaining
    /// samples all lie within the byte stream.
    pub open spec fn wf(self) -> bool {
        &&& self.samples > 0 ==> (self.channels == 1 || self.channels == 2)
        &&& self.samples > 0 ==> (self.bits == 8 || self.bits == 16)
        &&& self.pos + self.samples * frame_bytes(self.channels, self.bits) <= self.data@.len()
    }

    /// An exhausted stream with no bytes behind it.
    pub fn empty() -> (s: PcmSource)
        ensures
            s.wf(),
            s.samples == 0,
            s.pos == 0,
            s.data@.len() == 0,
    {
        PcmSource { data: Vec::new(), pos: 0, samples: 0, channels: 0, bits: 0 }
    }

    /// A stream over `data`, holding `samples` frames of the given format
    /// starting at its first byte.
    pub fn new(data: Vec<u8>, samples: u32, channels: u32, bits: u32) -> (s: PcmSource)
        requires
            channels == 1 || channels == 2,
            bits == 8 || bits == 16,
            samples * frame_bytes(channels, bits) <= data@.len(),
        ensures
            s.wf(),
            s.data == data,
            s.pos == 0,
            s.samples == samples,
            s.channels == channels,
            s.bits == bits,
    {
        PcmSource { data, pos: 0, samples, channels, bits }
    }

    /// Reads one channel's sample at the cursor and returns its normalized
    /// word; advances the cursor past the sample.
    fn read_one(&mut self) -> (w: u32)
        requires
            old(self).bits == 8 || old(self).bits == 16,
            old(self).pos + bytes_per_sample(old(self).bits) <= old(self).data@.len(),
        ensures
            final(self).data == old(self).data,
            final(self).channels == old(self).channels,
            final(self).bits == old(self).bits,
            final(self).samples == old(self).samples,
            final(self).pos == old(self).pos + bytes_per_sample(old(self).bits),
            w == word_at(old(self).data@, old(self).pos as int, old(self).bits),
            w < 0x1000,
    {
        proof {
            assert(self.data.len() == self.data@.len());
        }
        if self.bits == 16 {
            let lo = self.data[self.pos];
            let hi = self.data[self.pos + 1];
            self.pos = self.pos + 2;
            convert_sample16(lo, hi)
        } else {
            let b = self.data[self.pos];
            self.pos = self.pos + 1;
            convert_sample8(b)
        }
    }

    /// Fills the front of `buffer` with normalized stereo word pairs read
    /// from the stream, up to `capacity` words, and returns the number of
    /// words written. Returns 0 exactly when the stream is already
    /// exhausted; returns fewer than `capacity` words exactly when the
    /// stream runs out mid-chunk.
    pub fn fill(&mut self, buffer: &mut Vec<u32>, capacity: u32) -> (r: u32)
        requires
            old(self).wf(),
            capacity > 0,
            capacity % 2 == 0,
            capacity <= old(buffer)@.len(),
        ensures
            final(self).wf(),
            final(self).data@ == old(self).data@,
            final(self).channels == old(self).channels,
            final(self).bits == old(self).bits,
            r % 2 == 0,
            r <= capacity,
            (r == 0 <==> old(self).samples == 0),
            r == words_for(old(self).samples, capacity),
            old(self).samples >= capacity / 2 ==> r == capacity,
            old(self).samples < capacity / 2 ==> r == 2 * old(self).samples,
            old(self).samples < capacity / 2 ==> final(self).samples == 0,
            final(self).samples == old(self).samples - r / 2,
            final(self).pos == old(self).pos + (r / 2) * frame_bytes(
                old(self).channels,
                old(self).bits,
            ),
            final(buffer)@.len() == old(buffer)@.len(),
            chunk_filled(
                final(buffer)@,
                old(buffer)@,
                old(self).data@,
                old(self).pos as int,
                old(self).channels,
                old(self).bits,
                r as int,
            ),
            old(self).channels == 1 ==> forall|i: int|
                0 <= i < r / 2 ==> final(buffer)@[2 * i + 1] == #[trigger] final(buffer)@[2 * i],
    {
        if self.samples == 0 {
            return 0;
        }
        let ghost data0 = self.data@;
        let ghost pos0 = self.pos as int;
        let ghost ch = self.channels;
        let ghost bits = self.bits;
        let ghost samples0 = self.samples;
        let ghost f = frame_bytes(ch, bits);
        let half: u32 = capacity / 2;
        let mut pair: u32 = 0;
        while pair < half && self.samples > 0
            invariant
                self.data@ == data0,
                self.channels == ch,
                self.bits == bits,
                ch == 1 || ch == 2,
                bits == 8 || bits == 16,
                f == frame_bytes(ch, bits),
                1 <= f <= 4,
                half == capacity / 2,
                capacity % 2 == 0,
                0 < capacity <= buffer@.len(),
                pair <= half,
                pair <= samples0,
                samples0 > 0,
                self.samples == samples0 - pair,
                self.pos == pos0 + pair * f,
                self.pos + self.samples * f <= data0.len(),
                buffer@.len() == old(buffer)@.len(),
                forall|i: int| 0 <= i < pair ==> buffer@[2 * i] == left_word(data0, pos0, ch, bits, i),
                forall|i: int|
                    0 <= i < pair ==> buffer@[2 * i + 1] == right_word(data0, pos0, ch, bits, i),
                forall|j: int| 2 * pair <= j < buffer@.len() ==> buffer@[j] == old(buffer)@[j],
            decreases half - pair,
        {
            proof {
                assert(self.samples * f >= f) by (nonlinear_arith)
                    requires
                        self.samples >= 1,
                        f >= 1,
                ;
            }
            let w1 = self.read_one();
            let mut w2 = w1;
            if self.channels == 2 {
                w2 = self.read_one();
            }
            let i0: usize = (2 * pair) as usize;
            buffer[i0] = w1;
            buffer[i0 + 1] = w2;
            proof {
                assert((pair + 1) * f == pair * f + f) by (nonlinear_arith);
                assert((self.samples - 1) * f == self.samples * f - f) by (nonlinear_arith);
            }
            pair = pair + 1;
            self.samples = self.samples - 1;
        }
        proof {
            assert((samples0 - pair) * f >= 0) by (nonlinear_arith)
                requires
                    samples0 - pair >= 0,
                    f >= 1,
            ;
            assert forall|j: int| 0 <= j < 2 * pair implies #[trigger] buffer@[j] == (if j % 2
                == 0 {
                left_word(data0, pos0, ch, bits, j / 2)
            } else {
                right_word(data0, pos0, ch, bits, j / 2)
            }) by {
                let i = j / 2;
                if j % 2 == 0 {
                    assert(j == 2 * i);
                    assert(buffer@[2 * i] == left_word(data0, pos0, ch, bits, i));
                } else {
                    assert(j == 2 * i + 1);
                    assert(buffer@[2 * i + 1] == right_word(data0, pos0, ch, bits, i));
                }
            }
            if ch == 1 {
                assert forall|i: int|
                    0 <= i < pair implies buffer@[2 * i + 1] == #[trigger] buffer@[2 * i] by {
                    assert(buffer@[2 * i] == left_word(data0, pos0, ch, bits, i));
                    assert(buffer@[2 * i + 1] == right_word(data0, pos0, ch, bits, i));
                }
            }
        }
        2 * pair
    }
}


} // verus!
