//! Bit and byte assembly, and the helpers that map bytes to addresses.

use crate::address::{ipv4_at, mac_at, zero_mac_addr, Ipv4Address};
use crate::cursor::ByteCursor;
use crate::endian::{
    be_field, be_value, lemma_be_value_bound, lemma_fold_step, lemma_radix_pow_monotonic,
    lemma_radix_pow_positive, radix_pow, Word,
};
use crate::error::DecodeError;
use pnet::util::MacAddr;
use vstd::arithmetic::div_mod::lemma_small_mod;
use vstd::arithmetic::power2::{lemma2_to64, pow2};
use vstd::bits::lemma_u16_shl_is_mul;
use vstd::prelude::*;

verus! {

/// Builds a hardware address from exactly six bytes. Any other number of
/// bytes gives the all-zero address.
pub fn mapping_mac_addr(datas: Vec<u8>) -> (address: MacAddr)
    ensures
        datas@.len() == 6 ==> address == mac_at(datas@, 0),
        datas@.len() != 6 ==> address == MacAddr(0, 0, 0, 0, 0, 0),
{
    if datas.len() != 6 {
        return zero_mac_addr();
    }
    MacAddr::new(datas[0], datas[1], datas[2], datas[3], datas[4], datas[5])
}

/// Reads the next four bytes under the cursor as an IPv4 address. Where
/// fewer than four remain the read fails and the cursor stays where it is.
pub fn mapping_ip4_addr(iter: &mut ByteCursor) -> (read: Result<Ipv4Address, DecodeError>)
    ensures
        final(iter).source() == old(iter).source(),
        match read {
            Ok(address) => {
                &&& old(iter).consumed() + 4 <= old(iter).source().len()
                &&& address == ipv4_at(old(iter).source(), old(iter).consumed() as int)
                &&& final(iter).consumed() == old(iter).consumed() + 4
            },
            Err(failure) => {
                &&& failure == DecodeError::Truncated
                &&& old(iter).consumed() + 4 > old(iter).source().len()
                &&& final(iter).consumed() == old(iter).consumed()
            },
        },
{
    match iter.take(4) {
        Ok(run) => Ok(Ipv4Address(run[0], run[1], run[2], run[3])),
        Err(failure) => Err(failure),
    }
}

/// Splits `byte` at bit position `number`: the top `number` bits come first,
/// the bottom `8 - number` bits second.
pub fn splice_byte(number: u8, byte: u8) -> (parts: (u8, u8))
    requires
        number < 8,
    ensures
        parts.0 == byte as nat / pow2((8 - number) as nat),
        parts.1 == byte as nat % pow2((8 - number) as nat),
        parts.0 * pow2((8 - number) as nat) + parts.1 == byte,
        parts.0 < pow2(number as nat),
        parts.1 < pow2((8 - number) as nat),
{
    let width: u16 = 8 - number as u16;
    let key: u16 = 1u16 << width;
    proof {
        lemma2_to64();
        lemma_u16_shl_is_mul(1u16, width);
        assert(key == pow2(width as nat));
        assert(number == 0 || number == 1 || number == 2 || number == 3 || number == 4
            || number == 5 || number == 6 || number == 7);
    }
    let high: u16 = byte as u16 / key;
    let low: u16 = byte as u16 % key;
    (high as u8, low as u8)
}

/// Reads the next `count` bytes under the cursor and folds them into an
/// unsigned integer in big-endian order: each byte shifts what came before
/// by eight bits and takes the low octet. Bytes beyond the width of `T` push
/// the earliest ones out at the top. Where fewer than `count` bytes remain
/// the read fails and the cursor stays where it is.
pub fn assemble_byte<T: Word>(pieces: &mut ByteCursor, count: usize) -> (read: Result<
    T,
    DecodeError,
>)
    ensures
        final(pieces).source() == old(pieces).source(),
        match read {
            Ok(word) => {
                let field = be_field(
                    old(pieces).source(),
                    old(pieces).consumed() as int,
                    count as int,
                );
                &&& old(pieces).consumed() + count <= old(pieces).source().len()
                &&& word.value() == field % radix_pow(T::octets())
                &&& count <= T::octets() ==> word.value() == field
                &&& final(pieces).consumed() == old(pieces).consumed() + count
            },
            Err(failure) => {
                &&& failure == DecodeError::Truncated
                &&& old(pieces).consumed() + count > old(pieces).source().len()
                &&& final(pieces).consumed() == old(pieces).consumed()
            },
        },
{
    let run = pieces.take(count)?;
    let mut word = T::zero();
    let mut index: usize = 0;
    proof {
        lemma_radix_pow_positive(T::octets());
    }
    while index < run.len()
        invariant
            index <= run@.len(),
            radix_pow(T::octets()) > 0,
            word.value() == be_value(run@.take(index as int)) % radix_pow(T::octets()),
        decreases run@.len() - index,
    {
        proof {
            let front = run@.take(index as int);
            let longer = run@.take(index + 1);
            assert(longer.drop_last() =~= front);
            lemma_fold_step(be_value(front), run@[index as int], radix_pow(T::octets()));
        }
        word = word.shift_in(run[index]);
        index = index + 1;
    }
    proof {
        assert(run@.take(index as int) =~= run@);
        if count <= T::octets() {
            lemma_be_value_bound(run@);
            lemma_radix_pow_monotonic(run@.len(), T::octets());
            lemma_small_mod(be_value(run@), radix_pow(T::octets()));
        }
    }
    Ok(word)
}

} // verus!
