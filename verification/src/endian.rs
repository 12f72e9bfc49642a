//! Unsigned integers written as bytes in big-endian order: what a run of
//! bytes is worth, the bytes that spell a value, and the integer types that a
//! run of bytes can be folded into.

use vstd::arithmetic::div_mod::{
    lemma_add_mod_noop, lemma_mod_breakdown, lemma_mul_mod_noop_left, lemma_small_mod,
};
use vstd::prelude::*;

verus! {

/// 256 to the power `count`: how many values `count` octets can tell apart.
pub open spec fn radix_pow(count: nat) -> nat
    decreases count,
{
    if count == 0 {
        1
    } else {
        256 * radix_pow((count - 1) as nat)
    }
}

/// The number that `bytes` spell in big-endian order: the first byte weighs
/// most, the last one least.
pub open spec fn be_value(bytes: Seq<u8>) -> nat
    decreases bytes.len(),
{
    if bytes.len() == 0 {
        0
    } else {
        be_value(bytes.drop_last()) * 256 + bytes.last() as nat
    }
}

/// The number spelled by the `count` bytes of `bytes` from `start` on.
pub open spec fn be_field(bytes: Seq<u8>, start: int, count: int) -> nat {
    be_value(bytes.subrange(start, start + count))
}

/// The `count` low-order octets of `value`, most significant first.
pub open spec fn be_bytes(value: nat, count: nat) -> Seq<u8>
    decreases count,
{
    if count == 0 {
        Seq::empty()
    } else {
        be_bytes(value / 256, (count - 1) as nat).push((value % 256) as u8)
    }
}

/// `radix_pow` is never zero.
pub proof fn lemma_radix_pow_positive(count: nat)
    ensures
        radix_pow(count) > 0,
    decreases count,
{
    if count > 0 {
        lemma_radix_pow_positive((count - 1) as nat);
    }
}

/// `radix_pow` grows with its argument.
pub proof fn lemma_radix_pow_monotonic(small: nat, large: nat)
    requires
        small <= large,
    ensures
        radix_pow(small) <= radix_pow(large),
    decreases large,
{
    if small < large {
        lemma_radix_pow_monotonic(small, (large - 1) as nat);
        lemma_radix_pow_positive((large - 1) as nat);
    }
}

/// The values of `radix_pow` at the widths of the integer types.
pub proof fn lemma_radix_pow_values()
    ensures
        radix_pow(0) == 1,
        radix_pow(1) == 0x100,
        radix_pow(2) == 0x1_0000,
        radix_pow(3) == 0x100_0000,
        radix_pow(4) == 0x1_0000_0000,
        radix_pow(8) == 0x1_0000_0000_0000_0000,
        radix_pow(16) == 0x1_0000_0000_0000_0000_0000_0000_0000_0000nat,
{
    reveal_with_fuel(radix_pow, 5);
    assert(radix_pow(8) == 0x1_0000_0000 * radix_pow(4));
    assert(radix_pow(12) == 0x1_0000_0000 * radix_pow(8));
    assert(radix_pow(16) == 0x1_0000_0000 * radix_pow(12));
}

/// A run of bytes spells less than `radix_pow` of its length.
pub proof fn lemma_be_value_bound(bytes: Seq<u8>)
    ensures
        be_value(bytes) < radix_pow(bytes.len()),
    decreases bytes.len(),
{
    if bytes.len() > 0 {
        lemma_be_value_bound(bytes.drop_last());
    }
}

/// One more byte at the end shifts the value by eight bits and adds the byte.
pub proof fn lemma_be_value_push(bytes: Seq<u8>, byte: u8)
    ensures
        be_value(bytes.push(byte)) == be_value(bytes) * 256 + byte,
{
    assert(bytes.push(byte).drop_last() =~= bytes);
}

/// What one, two, three and four bytes spell, written out.
pub proof fn lemma_be_value_short(bytes: Seq<u8>)
    ensures
        bytes.len() == 0 ==> be_value(bytes) == 0,
        bytes.len() == 1 ==> be_value(bytes) == bytes[0],
        bytes.len() == 2 ==> be_value(bytes) == bytes[0] * 0x100 + bytes[1],
        bytes.len() == 3 ==> be_value(bytes) == bytes[0] * 0x1_0000 + bytes[1] * 0x100 + bytes[2],
        bytes.len() == 4 ==> be_value(bytes) == bytes[0] * 0x100_0000 + bytes[1] * 0x1_0000
            + bytes[2] * 0x100 + bytes[3],
{
    reveal_with_fuel(be_value, 5);
}

/// What a field of up to four bytes spells, written out over the bytes of
/// the buffer.
pub proof fn lemma_be_field_short(bytes: Seq<u8>, start: int)
    requires
        0 <= start,
    ensures
        start + 1 <= bytes.len() ==> be_field(bytes, start, 1) == bytes[start],
        start + 2 <= bytes.len() ==> be_field(bytes, start, 2) == bytes[start] * 0x100 + bytes[start
            + 1],
        start + 3 <= bytes.len() ==> be_field(bytes, start, 3) == bytes[start] * 0x1_0000
            + bytes[start + 1] * 0x100 + bytes[start + 2],
        start + 4 <= bytes.len() ==> be_field(bytes, start, 4) == bytes[start] * 0x100_0000
            + bytes[start + 1] * 0x1_0000 + bytes[start + 2] * 0x100 + bytes[start + 3],
{
    if start + 1 <= bytes.len() {
        lemma_be_value_short(bytes.subrange(start, start + 1));
    }
    if start + 2 <= bytes.len() {
        lemma_be_value_short(bytes.subrange(start, start + 2));
    }
    if start + 3 <= bytes.len() {
        lemma_be_value_short(bytes.subrange(start, start + 3));
    }
    if start + 4 <= bytes.len() {
        lemma_be_value_short(bytes.subrange(start, start + 4));
    }
}

/// The big-endian representation has the length asked for, and assembling it
/// gives the value back, reduced to that many octets.
pub proof fn lemma_be_round_trip(value: nat, count: nat)
    ensures
        be_bytes(value, count).len() == count,
        be_value(be_bytes(value, count)) == value % radix_pow(count),
    decreases count,
{
    if count > 0 {
        let rest = (count - 1) as nat;
        lemma_be_round_trip(value / 256, rest);
        lemma_be_value_push(be_bytes(value / 256, rest), (value % 256) as u8);
        lemma_radix_pow_positive(rest);
        lemma_mod_breakdown(value as int, 256, radix_pow(rest) as int);
    }
}

/// Assembling the big-endian representation of a value that fits in `count`
/// octets reproduces the value exactly.
pub proof fn lemma_be_round_trip_exact(value: nat, count: nat)
    requires
        value < radix_pow(count),
    ensures
        be_value(be_bytes(value, count)) == value,
{
    lemma_be_round_trip(value, count);
    lemma_small_mod(value, radix_pow(count));
}

/// The representation of what a run of bytes spells, at the run's own length,
/// is the run itself: no two runs of one length spell the same value.
pub proof fn lemma_be_bytes_of_value(bytes: Seq<u8>)
    ensures
        be_bytes(be_value(bytes), bytes.len()) == bytes,
    decreases bytes.len(),
{
    if bytes.len() > 0 {
        let front = bytes.drop_last();
        lemma_be_bytes_of_value(front);
        assert(be_value(bytes) / 256 == be_value(front));
        assert(be_value(bytes) % 256 == bytes.last());
        assert(front.push(bytes.last()) =~= bytes);
    } else {
        assert(bytes =~= Seq::empty());
    }
}

/// An unsigned integer type that bytes can be shifted into.
pub trait Word: Sized + Copy {
    /// The width of the type in octets.
    spec fn octets() -> nat;

    /// The number that the word holds.
    spec fn value(self) -> nat;

    /// A word holds less than `radix_pow` of its width.
    proof fn lemma_value_in_range(self)
        ensures
            self.value() < radix_pow(Self::octets()),
    ;

    /// Two words that hold the same number are the same word.
    proof fn lemma_value_determines(self, other: Self)
        requires
            self.value() == other.value(),
        ensures
            self == other,
    ;

    /// The word that holds zero.
    fn zero() -> (word: Self)
        ensures
            word.value() == 0,
    ;

    /// Shifts the word left by eight bits and puts `byte` into the low
    /// octet; the octet that leaves at the top is lost.
    fn shift_in(self, byte: u8) -> (word: Self)
        ensures
            word.value() == (self.value() * 256 + byte as nat) % radix_pow(Self::octets()),
    ;
}

impl Word for u16 {
    open spec fn octets() -> nat {
        2
    }

    open spec fn value(self) -> nat {
        self as nat
    }

    proof fn lemma_value_in_range(self) {
        lemma_radix_pow_values();
    }

    proof fn lemma_value_determines(self, other: Self) {
    }

    fn zero() -> (word: Self) {
        0
    }

    fn shift_in(self, byte: u8) -> (word: Self) {
        let word: u16 = (self << 8) | (byte as u16);
        proof {
            lemma_radix_pow_values();
            assert(((self << 8) | (byte as u16)) == (self * 256 + byte) % 0x1_0000)
                by (bit_vector);
        }
        word
    }
}

impl Word for u32 {
    open spec fn octets() -> nat {
        4
    }

    open spec fn value(self) -> nat {
        self as nat
    }

    proof fn lemma_value_in_range(self) {
        lemma_radix_pow_values();
    }

    proof fn lemma_value_determines(self, other: Self) {
    }

    fn zero() -> (word: Self) {
        0
    }

    fn shift_in(self, byte: u8) -> (word: Self) {
        let word: u32 = (self << 8) | (byte as u32);
        proof {
            lemma_radix_pow_values();
            assert(((self << 8) | (byte as u32)) == (self * 256 + byte) % 0x1_0000_0000)
                by (bit_vector);
        }
        word
    }
}

impl Word for u64 {
    open spec fn octets() -> nat {
        8
    }

    open spec fn value(self) -> nat {
        self as nat
    }

    proof fn lemma_value_in_range(self) {
        lemma_radix_pow_values();
    }

    proof fn lemma_value_determines(self, other: Self) {
    }

    fn zero() -> (word: Self) {
        0
    }

    fn shift_in(self, byte: u8) -> (word: Self) {
        let word: u64 = (self << 8) | (byte as u64);
        proof {
            lemma_radix_pow_values();
            assert(((self << 8) | (byte as u64)) == (self * 256 + byte)
                % 0x1_0000_0000_0000_0000) by (bit_vector);
        }
        word
    }
}

impl Word for u128 {
    open spec fn octets() -> nat {
        16
    }

    open spec fn value(self) -> nat {
        self as nat
    }

    proof fn lemma_value_in_range(self) {
        lemma_radix_pow_values();
    }

    proof fn lemma_value_determines(self, other: Self) {
    }

    fn zero() -> (word: Self) {
        0
    }

    fn shift_in(self, byte: u8) -> (word: Self) {
        let word: u128 = (self << 8) | (byte as u128);
        proof {
            lemma_radix_pow_values();
            assert(((self << 8) | (byte as u128)) == (self * 256 + byte)
                % 0x1_0000_0000_0000_0000_0000_0000_0000_0000int) by (bit_vector);
        }
        word
    }
}

/// Folding one more byte into a value that was reduced modulo `modulus`
/// gives the longer run's value, reduced likewise.
pub proof fn lemma_fold_step(front: nat, byte: u8, modulus: nat)
    requires
        modulus > 0,
    ensures
        ((front % modulus) * 256 + byte as nat) % modulus == (front * 256 + byte as nat) % modulus,
{
    let m = modulus as int;
    lemma_mul_mod_noop_left(front as int, 256, m);
    lemma_add_mod_noop(((front % modulus) * 256) as int, byte as int, m);
    lemma_add_mod_noop((front * 256) as int, byte as int, m);
}

/// Assembling the big-endian representation of a word, at the width of its
/// type, gives the word back: a word `assembled` that holds what the whole
/// representation of `word` folds to is `word`.
pub proof fn lemma_assemble_round_trip<T: Word>(word: T, assembled: T)
    requires
        assembled.value() == be_field(be_bytes(word.value(), T::octets()), 0, T::octets() as int)
            % radix_pow(T::octets()),
    ensures
        be_bytes(word.value(), T::octets()).len() == T::octets(),
        assembled == word,
{
    let pieces = be_bytes(word.value(), T::octets());
    word.lemma_value_in_range();
    lemma_be_round_trip(word.value(), T::octets());
    assert(pieces.subrange(0, T::octets() as int) =~= pieces);
    lemma_small_mod(word.value(), radix_pow(T::octets()));
    assembled.lemma_value_determines(word);
}

} // verus!
