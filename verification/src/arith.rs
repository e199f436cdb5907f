//! Byte and word arithmetic: wrapping, splitting a word into bytes, signs.

use vstd::prelude::*;

verus! {

/// `value` reduced modulo 256.
#[verifier::opaque]
pub open spec fn wrap8(value: int) -> u8 {
    (value % 256) as u8
}

/// `value` reduced modulo 65536.
#[verifier::opaque]
pub open spec fn wrap16(value: int) -> u16 {
    (value % 65536) as u16
}

/// The 16-bit word with the given high and low bytes.
pub open spec fn word(high: u8, low: u8) -> u16 {
    (high as int * 256 + low as int) as u16
}

/// The high byte of a word, which is also the number of its page.
pub open spec fn high_byte(value: u16) -> u8 {
    (value as int / 256) as u8
}

/// The low byte of a word.
pub open spec fn low_byte(value: u16) -> u8 {
    (value as int % 256) as u8
}

/// Whether bit 7 of a byte is set, which makes it negative as a signed number.
pub open spec fn sign_bit(value: u8) -> bool {
    value >= 0x80
}

/// The byte read as a signed number in two's complement.
pub open spec fn signed(value: u8) -> int {
    if value >= 0x80 {
        value as int - 256
    } else {
        value as int
    }
}

/// Whether two addresses lie on different 256-byte pages.
pub open spec fn pages_differ(first: u16, second: u16) -> bool {
    high_byte(first) != high_byte(second)
}

/// The sign test behind the overflow flag: the operand and the accumulator have
/// the same sign, and the result has the other one.
pub open spec fn sign_flipped(operand: u8, accumulator: u8, result: u8) -> bool {
    sign_bit(operand) != sign_bit(result) && sign_bit(result) != sign_bit(accumulator)
}

/// `wrap8` within one wrap of the byte range: it adds or takes away 256 at most once.
pub proof fn lemma_wrap8(value: int)
    ensures
        wrap8(value) == value % 256,
        0 <= value < 256 ==> wrap8(value) == value,
        256 <= value < 512 ==> wrap8(value) == value - 256,
        -256 <= value < 0 ==> wrap8(value) == value + 256,
{
    reveal(wrap8);
}

/// `wrap16` within one wrap of the word range.
pub proof fn lemma_wrap16(value: int)
    ensures
        wrap16(value) == value % 65536,
        0 <= value < 65536 ==> wrap16(value) == value,
        65536 <= value < 131072 ==> wrap16(value) == value - 65536,
        -65536 <= value < 0 ==> wrap16(value) == value + 65536,
{
    reveal(wrap16);
}

/// The wrapping operations on bytes are addition and subtraction modulo 256.
pub proof fn lemma_wrapping8(x: u8, y: u8)
    ensures
        x.wrapping_add(y) == wrap8(x + y),
        x.wrapping_sub(y) == wrap8(x - y),
{
    lemma_wrap8(x + y);
    lemma_wrap8(x - y);
}

/// The wrapping operations on words are addition and subtraction modulo 65536.
pub proof fn lemma_wrapping16(x: u16, y: u16)
    ensures
        x.wrapping_add(y) == wrap16(x + y),
        x.wrapping_sub(y) == wrap16(x - y),
{
    lemma_wrap16(x + y);
    lemma_wrap16(x - y);
}

/// Shifting the high byte up and joining the low byte gives `word`.
pub proof fn lemma_word_bits(high: u8, low: u8)
    ensures
        ((high as u16) << 8 | (low as u16)) == word(high, low),
        ((high as u16) << 8) == high as int * 256,
        high_byte(word(high, low)) == high,
        low_byte(word(high, low)) == low,
{
    assert(((high as u16) << 8 | (low as u16)) == high as int * 256 + low as int) by (bit_vector);
    assert(((high as u16) << 8) == high as int * 256) by (bit_vector);
    assert((high as int * 256 + low as int) / 256 == high) by (bit_vector);
    assert((high as int * 256 + low as int) % 256 == low) by (bit_vector);
}

/// Shifting and truncating a word give its high and low byte.
pub proof fn lemma_split_bits(value: u16)
    ensures
        ((value >> 8) as u8) == high_byte(value),
        (value as u8) == low_byte(value),
        ((value & 0xFF) as u8) == low_byte(value),
        word(high_byte(value), low_byte(value)) == value,
        low_byte(value) == wrap8(value as int),
{
    lemma_wrap8(value as int);
    assert(((value >> 8) as u8) == value / 256) by (bit_vector);
    assert((value as u8) == value % 256) by (bit_vector);
    assert(((value & 0xFF) as u8) == value % 256) by (bit_vector);
}

/// Masking off the low byte compares pages.
pub proof fn lemma_page_bits(first: u16, second: u16)
    ensures
        ((first & 0xFF00) != (second & 0xFF00)) == pages_differ(first, second),
{
    assert(((first & 0xFF00) != (second & 0xFF00)) == (first / 256 != second / 256))
        by (bit_vector);
}

/// Bit 7 of a byte, tested three ways.
pub proof fn lemma_sign_bits(value: u8)
    ensures
        (value >> 7 != 0) == sign_bit(value),
        ((value & 0x80) != 0) == sign_bit(value),
        ((value >> 7) & 1 == 1) == sign_bit(value),
{
    assert((value >> 7 != 0) == (value >= 0x80)) by (bit_vector);
    assert(((value & 0x80) != 0) == (value >= 0x80)) by (bit_vector);
    assert(((value >> 7) & 1 == 1) == (value >= 0x80)) by (bit_vector);
}

/// The bitwise form of the overflow test is the sign test.
pub proof fn lemma_overflow_bits(operand: u8, accumulator: u8, result: u8)
    ensures
        ((operand ^ result) & (result ^ accumulator) & 0x80 != 0) == sign_flipped(
            operand,
            accumulator,
            result,
        ),
{
    assert(((operand ^ result) & (result ^ accumulator) & 0x80 != 0) == ((operand >= 0x80) != (
    result >= 0x80) && (result >= 0x80) != (accumulator >= 0x80))) by (bit_vector);
}

/// Shifts by one place are doubling and halving; bit 0 is the parity.
pub proof fn lemma_shift_bits(value: u8, carry: u8)
    requires
        carry <= 1,
    ensures
        (value << 1) == wrap8(value as int * 2),
        (value >> 1) == value as int / 2,
        ((value & 0x01) != 0) == (value as int % 2 == 1),
        ((value << 1) | carry) == wrap8(value as int * 2 + carry as int),
        ((value >> 1) | (carry << 7)) == value as int / 2 + 128 * carry as int,
{
    lemma_wrap8(value as int * 2);
    lemma_wrap8(value as int * 2 + carry as int);
    assert((value << 1) == (value as int * 2) % 256) by (bit_vector);
    assert((value >> 1) == value as int / 2) by (bit_vector);
    assert(((value & 0x01) != 0) == (value as int % 2 == 1)) by (bit_vector);
    assert(((value << 1) | carry) == (value as int * 2 + carry as int) % 256) by (bit_vector)
        requires
            carry <= 1,
    ;
    assert(((value >> 1) | (carry << 7)) == value as int / 2 + 128 * carry as int) by (bit_vector)
        requires
            carry <= 1,
    ;
}

/// Adding a byte, cast to a signed byte and on to a word, adds `signed` of
/// the byte modulo 65536.
pub proof fn lemma_sign_extension(base: u16, value: u8)
    ensures
        base.wrapping_add(1).wrapping_add((value as i8) as u16) == wrap16(
            base + 1 + signed(value),
        ),
{
    lemma_wrap16(base + 1 + signed(value));
    assert(((value as i8) as u16) == (if value >= 0x80 {
        (0xFF00 + value) as u16
    } else {
        value as u16
    })) by (bit_vector);
}

} // verus!
