use crate::format::Format;
use vstd::prelude::*;

verus! {

/// The bytes of `buffer` with those from `offset` on overwritten by `patch`.
pub open spec fn splice(buffer: Seq<u8>, offset: int, patch: Seq<u8>) -> Seq<u8> {
    buffer.subrange(0, offset) + patch + buffer.subrange(offset + patch.len(), buffer.len() as int)
}

/// The two bytes of a 16-bit pattern, least significant first.
pub open spec fn bytes_of_u16(pattern: int) -> Seq<u8> {
    seq![(pattern % 256) as u8, (pattern / 256) as u8]
}

/// The four bytes of a 32-bit pattern, least significant first.
pub open spec fn bytes_of_u32(pattern: int) -> Seq<u8> {
    seq![
        (pattern % 256) as u8,
        (pattern / 256 % 256) as u8,
        (pattern / 65536 % 256) as u8,
        (pattern / 16777216) as u8,
    ]
}

/// The 16-bit two's complement pattern of `value`.
pub open spec fn pattern_of_i16(value: i16) -> int {
    if value >= 0 {
        value as int
    } else {
        value + 65536
    }
}

/// The 32-bit two's complement pattern of `value`.
pub open spec fn pattern_of_i32(value: i32) -> int {
    if value >= 0 {
        value as int
    } else {
        value + 4294967296
    }
}

/// A numeric representation that a sample of a raw PCM buffer can have.
///
/// A sample is modelled by its encoding: the bytes that it occupies in a
/// buffer. Multi-byte samples are stored least significant byte first.
pub trait Sample: Sized {
    /// The format tag of this representation.
    spec fn spec_format() -> Format;

    /// The bytes that this sample occupies in a buffer.
    spec fn encoding(&self) -> Seq<u8>;

    fn format() -> (format: Format)
        ensures
            format == Self::spec_format(),
    ;

    /// Reads the sample that starts at byte `offset` of `bytes`.
    fn read(bytes: &[u8], offset: usize) -> (sample: Self)
        requires
            offset + Self::spec_format().width() <= bytes@.len(),
        ensures
            sample.encoding() == bytes@.subrange(
                offset as int,
                offset + Self::spec_format().width(),
            ),
    ;

    /// Stores this sample at byte `offset` of `bytes`.
    fn write(&self, bytes: &mut [u8], offset: usize)
        requires
            offset + Self::spec_format().width() <= old(bytes)@.len(),
        ensures
            final(bytes)@ == splice(old(bytes)@, offset as int, self.encoding()),
    ;

    /// An encoding is as long as the format is wide.
    proof fn lemma_encoding_len(&self)
        ensures
            self.encoding().len() == Self::spec_format().width(),
    ;

    /// Two samples with the same encoding are the same sample.
    proof fn lemma_encoding_injective(a: &Self, b: &Self)
        requires
            a.encoding() == b.encoding(),
        ensures
            *a == *b,
    ;
}

impl Sample for u8 {
    open spec fn spec_format() -> Format {
        Format::U8
    }

    open spec fn encoding(&self) -> Seq<u8> {
        seq![*self]
    }

    fn format() -> (format: Format) {
        Format::U8
    }

    fn read(bytes: &[u8], offset: usize) -> (sample: Self) {
        let sample = bytes[offset];
        assert(sample.encoding() =~= bytes@.subrange(offset as int, offset + 1));
        sample
    }

    fn write(&self, bytes: &mut [u8], offset: usize) {
        bytes[offset] = *self;
        assert(bytes@ =~= splice(old(bytes)@, offset as int, self.encoding()));
    }

    proof fn lemma_encoding_len(&self) {
    }

    proof fn lemma_encoding_injective(a: &Self, b: &Self) {
        assert(a.encoding()[0] == *a);
        assert(b.encoding()[0] == *b);
    }
}

impl Sample for i16 {
    open spec fn spec_format() -> Format {
        Format::S16
    }

    open spec fn encoding(&self) -> Seq<u8> {
        bytes_of_u16(pattern_of_i16(*self))
    }

    fn format() -> (format: Format) {
        Format::S16
    }

    fn read(bytes: &[u8], offset: usize) -> (sample: Self) {
        let low: u16 = bytes[offset] as u16;
        let high: u16 = bytes[offset + 1] as u16;
        let pattern: u16 = low + high * 256;
        let sample: i16 = if pattern < 32768 {
            pattern as i16
        } else {
            ((pattern - 32768) as i16) + i16::MIN
        };
        assert(pattern_of_i16(sample) == pattern);
        assert(sample.encoding() =~= bytes@.subrange(offset as int, offset + 2));
        sample
    }

    fn write(&self, bytes: &mut [u8], offset: usize) {
        let pattern: u16 = if *self >= 0 {
            *self as u16
        } else {
            ((*self - i16::MIN) as u16) + 32768
        };
        assert(pattern == pattern_of_i16(*self));
        bytes[offset] = (pattern % 256) as u8;
        bytes[offset + 1] = (pattern / 256) as u8;
        assert(bytes@ =~= splice(old(bytes)@, offset as int, self.encoding()));
    }

    proof fn lemma_encoding_len(&self) {
    }

    proof fn lemma_encoding_injective(a: &Self, b: &Self) {
        let p = pattern_of_i16(*a);
        let q = pattern_of_i16(*b);
        assert(a.encoding()[0] == b.encoding()[0]);
        assert(a.encoding()[1] == b.encoding()[1]);
        assert(p == q);
    }
}

impl Sample for [u8; 3] {
    open spec fn spec_format() -> Format {
        Format::S24
    }

    open spec fn encoding(&self) -> Seq<u8> {
        self@
    }

    fn format() -> (format: Format) {
        Format::S24
    }

    fn read(bytes: &[u8], offset: usize) -> (sample: Self) {
        let sample: [u8; 3] = [bytes[offset], bytes[offset + 1], bytes[offset + 2]];
        assert(sample.encoding() =~= bytes@.subrange(offset as int, offset + 3));
        sample
    }

    fn write(&self, bytes: &mut [u8], offset: usize) {
        bytes[offset] = self[0];
        bytes[offset + 1] = self[1];
        bytes[offset + 2] = self[2];
        assert(bytes@ =~= splice(old(bytes)@, offset as int, self.encoding()));
    }

    proof fn lemma_encoding_len(&self) {
    }

    proof fn lemma_encoding_injective(a: &Self, b: &Self) {
        assert(*a =~= *b);
    }
}

impl Sample for i32 {
    open spec fn spec_format() -> Format {
        Format::S32
    }

    open spec fn encoding(&self) -> Seq<u8> {
        bytes_of_u32(pattern_of_i32(*self))
    }

    fn format() -> (format: Format) {
        Format::S32
    }

    fn read(bytes: &[u8], offset: usize) -> (sample: Self) {
        let pattern: u32 = read_pattern(bytes, offset);
        let sample: i32 = if pattern < 2147483648 {
            pattern as i32
        } else {
            ((pattern - 2147483648) as i32) + i32::MIN
        };
        assert(pattern_of_i32(sample) == pattern);
        sample
    }

    fn write(&self, bytes: &mut [u8], offset: usize) {
        let pattern: u32 = if *self >= 0 {
            *self as u32
        } else {
            ((*self - i32::MIN) as u32) + 2147483648
        };
        assert(pattern == pattern_of_i32(*self));
        write_pattern(pattern, bytes, offset);
    }

    proof fn lemma_encoding_len(&self) {
    }

    proof fn lemma_encoding_injective(a: &Self, b: &Self) {
        lemma_bytes_of_u32_injective(pattern_of_i32(*a), pattern_of_i32(*b));
    }
}

/// A 32-bit floating-point sample, held as its IEEE 754 bit pattern.
#[derive(Debug, Clone, Copy, PartialEq, Eq, Structural)]
pub struct F32Bits {
    pub bits: u32,
}

impl F32Bits {
    pub fn from_bits(bits: u32) -> (sample: F32Bits)
        ensures
            sample.bits == bits,
    {
        F32Bits { bits }
    }

    pub fn to_bits(self) -> (bits: u32)
        ensures
            bits == self.bits,
    {
        self.bits
    }
}

impl Sample for F32Bits {
    open spec fn spec_format() -> Format {
        Format::F32
    }

    open spec fn encoding(&self) -> Seq<u8> {
        bytes_of_u32(self.bits as int)
    }

    fn format() -> (format: Format) {
        Format::F32
    }

    fn read(bytes: &[u8], offset: usize) -> (sample: Self) {
        F32Bits { bits: read_pattern(bytes, offset) }
    }

    fn write(&self, bytes: &mut [u8], offset: usize) {
        write_pattern(self.bits, bytes, offset);
    }

    proof fn lemma_encoding_len(&self) {
    }

    proof fn lemma_encoding_injective(a: &Self, b: &Self) {
        lemma_bytes_of_u32_injective(a.bits as int, b.bits as int);
    }
}

/// Reads the 32-bit pattern stored at `offset`, least significant byte first.
fn read_pattern(bytes: &[u8], offset: usize) -> (pattern: u32)
    requires
        offset + 4 <= bytes@.len(),
    ensures
        bytes_of_u32(pattern as int) == bytes@.subrange(offset as int, offset + 4),
{
    let b0: u32 = bytes[offset] as u32;
    let b1: u32 = bytes[offset + 1] as u32;
    let b2: u32 = bytes[offset + 2] as u32;
    let b3: u32 = bytes[offset + 3] as u32;
    let pattern: u32 = b0 + b1 * 256 + b2 * 65536 + b3 * 16777216;
    proof {
        let p = pattern as int;
        assert(p / 256 == b1 + b2 * 256 + b3 * 65536);
        assert(p / 65536 == b2 + b3 * 256);
        assert(p / 16777216 == b3);
        assert(bytes_of_u32(p)[0] == bytes@[offset as int]);
        assert(bytes_of_u32(p)[1] == bytes@[offset + 1]);
        assert(bytes_of_u32(p)[2] == bytes@[offset + 2]);
        assert(bytes_of_u32(p)[3] == bytes@[offset + 3]);
        assert(bytes_of_u32(p) =~= bytes@.subrange(offset as int, offset + 4));
    }
    pattern
}

/// Stores the 32-bit `pattern` at `offset`, least significant byte first.
fn write_pattern(pattern: u32, bytes: &mut [u8], offset: usize)
    requires
        offset + 4 <= old(bytes)@.len(),
    ensures
        final(bytes)@ == splice(old(bytes)@, offset as int, bytes_of_u32(pattern as int)),
{
    bytes[offset] = (pattern % 256) as u8;
    bytes[offset + 1] = (pattern / 256 % 256) as u8;
    bytes[offset + 2] = (pattern / 65536 % 256) as u8;
    bytes[offset + 3] = (pattern / 16777216) as u8;
    assert(bytes@ =~= splice(old(bytes)@, offset as int, bytes_of_u32(pattern as int)));
}

proof fn lemma_bytes_of_u32_injective(p: int, q: int)
    requires
        0 <= p < 4294967296,
        0 <= q < 4294967296,
        bytes_of_u32(p) == bytes_of_u32(q),
    ensures
        p == q,
{
    lemma_pattern_from_bytes(p);
    lemma_pattern_from_bytes(q);
}

/// A 32-bit pattern is the sum of its four bytes, each at its place.
proof fn lemma_pattern_from_bytes(p: int)
    requires
        0 <= p < 4294967296,
    ensures
        p == bytes_of_u32(p)[0] + 256 * bytes_of_u32(p)[1] + 65536 * bytes_of_u32(p)[2] + 16777216
            * bytes_of_u32(p)[3],
{
    let upper = p / 256;
    let top = upper / 256;
    let last = top / 256;
    assert(p == 256 * upper + p % 256);
    assert(upper == 256 * top + upper % 256);
    assert(top == 256 * last + top % 256);
    assert(top == p / 65536);
    assert(last == p / 16777216);
    assert(0 <= last < 256);
}

} // verus!
