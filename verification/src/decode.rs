//! Typed decoding of raw register words.
//!
//! A register is one 16-bit word. Wider values span two consecutive words,
//! big-endian within and across the words; byte fields are the two halves of
//! a word, high byte first. Nothing here checks ranges: every bit pattern is
//! accepted as it is.

use vstd::prelude::*;

verus! {

/// An IEEE-754 binary32 number, held as its 32-bit pattern.
///
/// Equality is equality of patterns: two NaNs with the same bits are equal,
/// and the two zeros differ.
#[derive(Clone, Copy, Debug, PartialEq, Eq, Structural)]
pub struct Binary32 {
    pub bits: u32,
}

/// The 16-bit value of the big-endian bytes `b0 b1`.
pub open spec fn be_u16(b0: u8, b1: u8) -> u16 {
    (b0 * 0x100 + b1) as u16
}

/// The 32-bit value of the big-endian bytes `b0 b1 b2 b3`.
pub open spec fn be_u32(b0: u8, b1: u8, b2: u8, b3: u8) -> u32 {
    (b0 * 0x100_0000 + b1 * 0x1_0000 + b2 * 0x100 + b3) as u32
}

/// The high-order byte of a word.
pub open spec fn high_byte(word: u16) -> u8 {
    (word / 0x100) as u8
}

/// The low-order byte of a word.
pub open spec fn low_byte(word: u16) -> u8 {
    (word % 0x100) as u8
}

/// The 32-bit pattern carried by two consecutive words: the bytes of `first`
/// followed by the bytes of `second`, read big-endian.
pub open spec fn pair_bits(first: u16, second: u16) -> u32 {
    be_u32(high_byte(first), low_byte(first), high_byte(second), low_byte(second))
}

/// The two's-complement reading of a 16-bit pattern.
pub open spec fn signed16(word: u16) -> i16 {
    if word < 0x8000 {
        word as i16
    } else {
        (word - 0x1_0000) as i16
    }
}

/// The two's-complement reading of a 32-bit pattern.
pub open spec fn signed32(bits: u32) -> i32 {
    if bits < 0x8000_0000 {
        bits as i32
    } else {
        (bits - 0x1_0000_0000) as i32
    }
}

/// Splits a word into its high and low byte.
pub fn split_word(word: u16) -> (bytes: (u8, u8))
    ensures
        bytes.0 == high_byte(word),
        bytes.1 == low_byte(word),
{
    ((word / 0x100) as u8, (word % 0x100) as u8)
}

/// Joins two consecutive words into the 32-bit pattern they carry.
pub fn join_words(first: u16, second: u16) -> (bits: u32)
    ensures
        bits == pair_bits(first, second),
{
    let (b0, b1) = split_word(first);
    let (b2, b3) = split_word(second);
    (b0 as u32) * 0x100_0000 + (b1 as u32) * 0x1_0000 + (b2 as u32) * 0x100 + (b3 as u32)
}

/// Reinterprets a word as a signed 16-bit integer.
pub fn word_to_i16(word: u16) -> (value: i16)
    ensures
        value == signed16(word),
{
    assert(word >= 0x8000 ==> word as i16 == (word - 0x1_0000) as i16) by (bit_vector);
    word as i16
}

/// Reinterprets a 32-bit pattern as a signed 32-bit integer.
pub fn bits_to_i32(bits: u32) -> (value: i32)
    ensures
        value == signed32(bits),
{
    assert(bits >= 0x8000_0000 ==> bits as i32 == (bits - 0x1_0000_0000) as i32) by (bit_vector);
    bits as i32
}

/// The binary32 values carried by `words`, one for each pair of words.
pub open spec fn f32_values(words: Seq<u16>) -> Seq<Binary32> {
    Seq::new(words.len() / 2, |k: int| Binary32 { bits: pair_bits(words[2 * k], words[2 * k + 1]) })
}

/// The signed 32-bit values carried by `words`, one for each pair of words.
pub open spec fn i32_values(words: Seq<u16>) -> Seq<i32> {
    Seq::new(words.len() / 2, |k: int| signed32(pair_bits(words[2 * k], words[2 * k + 1])))
}

/// The signed 16-bit values carried by `words`, one for each word.
pub open spec fn i16_values(words: Seq<u16>) -> Seq<i16> {
    Seq::new(words.len(), |k: int| signed16(words[k]))
}

/// The bytes carried by `words`, two for each word, high byte first.
pub open spec fn u8_values(words: Seq<u16>) -> Seq<u8> {
    Seq::new(
        2 * words.len(),
        |j: int| if j % 2 == 0 { high_byte(words[j / 2]) } else { low_byte(words[j / 2]) },
    )
}

/// Decodes pairs of words as binary32 numbers.
pub fn decode_f32(words: &[u16]) -> (values: Vec<Binary32>)
    requires
        words.len() % 2 == 0,
    ensures
        values@ == f32_values(words@),
{
    let groups: usize = words.len() / 2;
    let mut values: Vec<Binary32> = Vec::new();
    let mut k: usize = 0;
    while k < groups
        invariant
            groups == words.len() / 2,
            k <= groups,
            values.len() == k,
            forall|j: int| 0 <= j < k ==> values[j] == f32_values(words@)[j],
        decreases groups - k,
    {
        let bits: u32 = join_words(words[2 * k], words[2 * k + 1]);
        values.push(Binary32 { bits });
        k = k + 1;
    }
    values
}

/// Decodes pairs of words as signed 32-bit integers.
pub fn decode_i32(words: &[u16]) -> (values: Vec<i32>)
    requires
        words.len() % 2 == 0,
    ensures
        values@ == i32_values(words@),
{
    let groups: usize = words.len() / 2;
    let mut values: Vec<i32> = Vec::new();
    let mut k: usize = 0;
    while k < groups
        invariant
            groups == words.len() / 2,
            k <= groups,
            values.len() == k,
            forall|j: int| 0 <= j < k ==> values[j] == i32_values(words@)[j],
        decreases groups - k,
    {
        let bits: u32 = join_words(words[2 * k], words[2 * k + 1]);
        values.push(bits_to_i32(bits));
        k = k + 1;
    }
    values
}

/// Decodes each word as a signed 16-bit integer.
pub fn decode_i16(words: &[u16]) -> (values: Vec<i16>)
    ensures
        values@ == i16_values(words@),
        forall|k: int| 0 <= k < words.len() ==> values[k] as u16 == words[k],
{
    let mut values: Vec<i16> = Vec::new();
    let mut k: usize = 0;
    while k < words.len()
        invariant
            k <= words.len(),
            values.len() == k,
            forall|j: int| 0 <= j < k ==> values[j] == i16_values(words@)[j],
        decreases words.len() - k,
    {
        values.push(word_to_i16(words[k]));
        k = k + 1;
    }
    proof {
        assert forall|j: int| 0 <= j < words.len() implies values[j] as u16 == words[j] by {
            signed16_round_trip(words[j]);
        }
    }
    values
}

/// Decodes each word as itself: the words are the unsigned 16-bit values.
pub fn decode_u16(words: &[u16]) -> (values: Vec<u16>)
    ensures
        values@ == words@,
{
    let mut values: Vec<u16> = Vec::new();
    let mut k: usize = 0;
    while k < words.len()
        invariant
            k <= words.len(),
            values.len() == k,
            forall|j: int| 0 <= j < k ==> values[j] == words[j],
        decreases words.len() - k,
    {
        values.push(words[k]);
        k = k + 1;
    }
    values
}

/// Decodes each word as two bytes, high byte first.
pub fn decode_u8(words: &[u16]) -> (values: Vec<u8>)
    ensures
        values@ == u8_values(words@),
        values.len() == 2 * words.len(),
        forall|k: int| 0 <= k < words.len() ==> values[2 * k] == high_byte(#[trigger] words[k]),
        forall|k: int| 0 <= k < words.len() ==> values[2 * k + 1] == low_byte(#[trigger] words[k]),
{
    let mut values: Vec<u8> = Vec::new();
    let mut k: usize = 0;
    while k < words.len()
        invariant
            k <= words.len(),
            values.len() == 2 * k,
            forall|j: int| 0 <= j < 2 * k ==> values[j] == u8_values(words@)[j],
        decreases words.len() - k,
    {
        let (high, low) = split_word(words[k]);
        values.push(high);
        values.push(low);
        k = k + 1;
    }
    values
}

/// Two words cut from a four-byte big-endian buffer carry the 32-bit value
/// of the whole buffer, as a pattern and as a signed integer.
pub proof fn pair_of_buffer(b0: u8, b1: u8, b2: u8, b3: u8)
    ensures
        pair_bits(be_u16(b0, b1), be_u16(b2, b3)) == be_u32(b0, b1, b2, b3),
        f32_values(seq![be_u16(b0, b1), be_u16(b2, b3)]) == seq![
            Binary32 { bits: be_u32(b0, b1, b2, b3) },
        ],
        i32_values(seq![be_u16(b0, b1), be_u16(b2, b3)]) == seq![signed32(be_u32(b0, b1, b2, b3))],
{
}

/// Reading a word as signed and casting back gives the word: the decoding
/// keeps every bit.
pub proof fn signed16_round_trip(word: u16)
    ensures
        signed16(word) as u16 == word,
{
    assert(word >= 0x8000 ==> ((word - 0x1_0000) as i16) as u16 == word) by (bit_vector);
}

} // verus!
