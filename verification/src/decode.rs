//! The frame decoder: raw little-endian PCM bytes to signed samples, and
//! the way back for sources that hand out samples.

use vstd::prelude::*;

verus! {

/// The widest sample, in bytes, that fits the sample type.
pub const MAX_SAMPLE_WIDTH: usize = 4;

/// Why a byte window was not decoded.
#[derive(Debug, Clone, Copy, PartialEq, Eq, Structural)]
pub enum DecodeError {
    /// The sample width is not 1, 2, 3 or 4 bytes.
    UnsupportedWidth,
    /// The window's length is not a multiple of the sample width.
    Misaligned,
}

/// 256 to the power of `n`.
pub open spec fn radix(n: nat) -> nat
    decreases n,
{
    if n == 0 {
        1
    } else {
        256 * radix((n - 1) as nat)
    }
}

/// The number that the bytes spell, least significant byte first.
pub open spec fn unsigned_le(bytes: Seq<u8>) -> nat
    decreases bytes.len(),
{
    if bytes.len() == 0 {
        0
    } else {
        bytes[0] as nat + 256 * unsigned_le(bytes.skip(1))
    }
}

/// The two's complement number that the bytes spell, least significant
/// byte first.
pub open spec fn signed_le(bytes: Seq<u8>) -> int {
    let value = unsigned_le(bytes);
    let modulus = radix(bytes.len());
    if 2 * value >= modulus {
        value - modulus
    } else {
        value as int
    }
}

/// The bytes of the `index`-th sample of a window.
pub open spec fn sample_bytes(bytes: Seq<u8>, width: nat, index: int) -> Seq<u8> {
    bytes.subrange(index * width, index * width + width)
}

/// The samples that an aligned window holds, in order.
pub open spec fn decoded(bytes: Seq<u8>, width: nat) -> Seq<i32> {
    Seq::new(
        (bytes.len() / width) as nat,
        |index: int| signed_le(sample_bytes(bytes, width, index)) as i32,
    )
}

/// The supported sample widths.
pub open spec fn supported_width(width: nat) -> bool {
    1 <= width <= MAX_SAMPLE_WIDTH
}

/// What `decode` returns for a window and a sample width.
pub open spec fn decode_spec(bytes: Seq<u8>, width: nat) -> Result<Seq<i32>, DecodeError> {
    if !supported_width(width) {
        Err(DecodeError::UnsupportedWidth)
    } else if bytes.len() % width != 0 {
        Err(DecodeError::Misaligned)
    } else {
        Ok(decoded(bytes, width))
    }
}

/// A decoded frame, with its samples as a sequence.
pub open spec fn decoded_view(frame: Result<Vec<i32>, DecodeError>) -> Result<
    Seq<i32>,
    DecodeError,
> {
    match frame {
        Ok(samples) => Ok(samples@),
        Err(e) => Err(e),
    }
}

/// The bytes spell a number below `256^len`.
pub proof fn lemma_unsigned_bound(bytes: Seq<u8>)
    ensures
        unsigned_le(bytes) < radix(bytes.len()),
    decreases bytes.len(),
{
    if bytes.len() > 0 {
        lemma_unsigned_bound(bytes.skip(1));
    }
}

/// Up to four bytes spell a signed number that fits in 32 bits.
pub proof fn lemma_signed_range(bytes: Seq<u8>)
    requires
        1 <= bytes.len() <= MAX_SAMPLE_WIDTH,
    ensures
        i32::MIN <= signed_le(bytes) <= i32::MAX,
{
    lemma_unsigned_bound(bytes);
    reveal_with_fuel(radix, 5);
}

/// Reads one sample of `width` bytes that starts at `start`.
fn decode_sample(bytes: &[u8], start: usize, width: usize) -> (sample: i32)
    requires
        supported_width(width as nat),
        start + width <= bytes.len(),
    ensures
        sample == signed_le(bytes@.subrange(start as int, start + width)),
{
    let ghost chunk = bytes@.subrange(start as int, start + width);
    let mut value: u64 = 0;
    let mut modulus: u64 = 1;
    let mut k: usize = width;
    proof {
        assert(chunk.skip(width as int).len() == 0);
        reveal_with_fuel(radix, 5);
    }
    while k > 0
        invariant
            k <= width <= MAX_SAMPLE_WIDTH,
            start + width <= bytes.len(),
            chunk == bytes@.subrange(start as int, start + width),
            value == unsigned_le(chunk.skip(k as int)),
            modulus == radix((width - k) as nat),
            value < modulus,
            modulus <= radix(4),
            radix(4) == 0x1_0000_0000,
        decreases k,
    {
        k = k - 1;
        proof {
            assert(chunk.skip(k as int).skip(1) == chunk.skip(k + 1));
            assert(chunk.skip(k as int)[0] == bytes@[start + k]);
            lemma_radix_monotone((width - k) as nat, 4);
        }
        value = value * 256 + bytes[start + k] as u64;
        modulus = modulus * 256;
    }
    assert(chunk.skip(0) == chunk);
    if 2 * value >= modulus {
        (value as i64 - modulus as i64) as i32
    } else {
        value as i32
    }
}

/// `radix` grows with its argument.
pub proof fn lemma_radix_monotone(a: nat, b: nat)
    requires
        a <= b,
    ensures
        radix(a) <= radix(b),
        radix(a) >= 1,
    decreases b,
{
    if a < b {
        lemma_radix_monotone(a, (b - 1) as nat);
    } else if a > 0 {
        lemma_radix_monotone((a - 1) as nat, (a - 1) as nat);
    }
}

/// Decodes a byte window into samples of `width` bytes each, signed and
/// least significant byte first. A window whose length is no multiple of
/// the width is rejected, and so is a width that the sample type cannot
/// hold.
pub fn decode(bytes: &[u8], width: usize) -> (frame: Result<Vec<i32>, DecodeError>)
    ensures
        decoded_view(frame) == decode_spec(bytes@, width as nat),
{
    if width < 1 || width > MAX_SAMPLE_WIDTH {
        return Err(DecodeError::UnsupportedWidth);
    }
    if bytes.len() % width != 0 {
        return Err(DecodeError::Misaligned);
    }
    let count: usize = bytes.len() / width;
    let mut samples: Vec<i32> = Vec::new();
    let mut index: usize = 0;
    let mut start: usize = 0;
    proof {
        vstd::arithmetic::div_mod::lemma_fundamental_div_mod(bytes.len() as int, width as int);
    }
    while index < count
        invariant
            supported_width(width as nat),
            index <= count,
            count == bytes.len() / width,
            count * width == bytes.len(),
            start == index * width,
            samples@.len() == index,
            forall|i: int|
                0 <= i < index ==> samples@[i] == #[trigger] decoded(bytes@, width as nat)[i],
        decreases count - index,
    {
        proof {
            assert(start + width <= bytes.len()) by (nonlinear_arith)
                requires
                    start == index * width,
                    index < count,
                    count * width == bytes.len(),
            ;
            assert((index + 1) * width == index * width + width) by (nonlinear_arith);
            lemma_signed_range(sample_bytes(bytes@, width as nat, index as int));
        }
        let sample = decode_sample(bytes, start, width);
        samples.push(sample);
        index = index + 1;
        start = start + width;
    }
    assert(samples@ =~= decoded(bytes@, width as nat));
    Ok(samples)
}

/// The four bytes of a sample, least significant first, in two's
/// complement.
pub open spec fn sample_le(sample: i32) -> Seq<u8> {
    let value = if sample < 0 {
        sample + 0x1_0000_0000
    } else {
        sample as int
    };
    seq![
        (value % 256) as u8,
        (value / 0x100 % 256) as u8,
        (value / 0x1_0000 % 256) as u8,
        (value / 0x100_0000) as u8,
    ]
}

/// The bytes of a run of samples, four for each, in order.
pub open spec fn encoded(samples: Seq<i32>) -> Seq<u8>
    decreases samples.len(),
{
    if samples.len() == 0 {
        Seq::<u8>::empty()
    } else {
        encoded(samples.drop_last()) + sample_le(samples.last())
    }
}

/// The four bytes of a sample spell that sample.
pub proof fn lemma_sample_round_trip(sample: i32)
    ensures
        sample_le(sample).len() == 4,
        signed_le(sample_le(sample)) == sample,
{
    let bytes = sample_le(sample);
    reveal_with_fuel(radix, 5);
    reveal_with_fuel(unsigned_le, 5);
    assert(bytes.skip(1).skip(1) == bytes.skip(2));
    assert(bytes.skip(2).skip(1) == bytes.skip(3));
    assert(bytes.skip(3).skip(1) == bytes.skip(4));
    assert(bytes.skip(1)[0] == bytes[1]);
    assert(bytes.skip(2)[0] == bytes[2]);
    assert(bytes.skip(3)[0] == bytes[3]);
    assert(unsigned_le(bytes.skip(4)) == 0);
    assert(unsigned_le(bytes.skip(3)) == bytes[3]);
    assert(unsigned_le(bytes.skip(2)) == bytes[2] + 256 * bytes[3]);
    assert(unsigned_le(bytes.skip(1)) == bytes[1] + 256 * (bytes[2] + 256 * bytes[3]));
    assert(unsigned_le(bytes) == bytes[0] + 256 * (bytes[1] + 256 * (bytes[2] + 256 * bytes[3])));
}

/// A run of samples has four bytes for each.
pub proof fn lemma_encoded_len(samples: Seq<i32>)
    ensures
        encoded(samples).len() == 4 * samples.len(),
    decreases samples.len(),
{
    if samples.len() > 0 {
        lemma_encoded_len(samples.drop_last());
    }
}

/// Decoding what was encoded gives the samples back.
pub proof fn lemma_round_trip(samples: Seq<i32>)
    ensures
        decode_spec(encoded(samples), 4) == Ok::<Seq<i32>, DecodeError>(samples),
    decreases samples.len(),
{
    lemma_encoded_len(samples);
    let bytes = encoded(samples);
    assert(decoded(bytes, 4) =~= samples) by {
        assert forall|index: int| 0 <= index < samples.len() implies decoded(bytes, 4)[index]
            == samples[index] by {
            lemma_encoded_chunk(samples, index);
            lemma_sample_round_trip(samples[index]);
        }
    }
}

/// The bytes of the `index`-th sample stand at the `index`-th place.
pub proof fn lemma_encoded_chunk(samples: Seq<i32>, index: int)
    requires
        0 <= index < samples.len(),
    ensures
        sample_bytes(encoded(samples), 4, index) == sample_le(samples[index]),
    decreases samples.len(),
{
    lemma_encoded_len(samples);
    lemma_encoded_len(samples.drop_last());
    let front = encoded(samples.drop_last());
    if index == samples.len() - 1 {
        assert(sample_bytes(encoded(samples), 4, index) =~= sample_le(samples.last()));
    } else {
        lemma_encoded_chunk(samples.drop_last(), index);
        assert(sample_bytes(encoded(samples), 4, index) =~= sample_bytes(front, 4, index));
    }
}

/// Writes one sample as four bytes, least significant first.
pub fn encode_sample(sample: i32) -> (bytes: [u8; 4])
    ensures
        bytes@ == sample_le(sample),
{
    let value: i64 = if sample < 0 {
        sample as i64 + 0x1_0000_0000
    } else {
        sample as i64
    };
    let bytes = [
        (value % 256) as u8,
        (value / 0x100 % 256) as u8,
        (value / 0x1_0000 % 256) as u8,
        (value / 0x100_0000) as u8,
    ];
    assert(bytes@ =~= sample_le(sample));
    bytes
}

} // verus!
