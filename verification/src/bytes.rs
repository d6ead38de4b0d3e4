//! Byte strings: comparison, big-endian numbers, and 32-byte words.

use vstd::prelude::*;

verus! {

/// The digits of `n` to the base 256, the most significant first, without
/// leading zeros.
pub open spec fn be_bytes(n: nat) -> Seq<u8>
    decreases n,
{
    if n == 0 {
        Seq::empty()
    } else {
        be_bytes(n / 256).push((n % 256) as u8)
    }
}

/// The number whose digits to the base 256 are `digits`.
pub open spec fn be_value(digits: Seq<u8>) -> nat
    decreases digits.len(),
{
    if digits.len() == 0 {
        0
    } else {
        be_value(digits.drop_last()) * 256 + digits.last() as nat
    }
}

/// `count` zero bytes.
pub open spec fn zeros(count: int) -> Seq<u8> {
    Seq::new(count as nat, |i: int| 0u8)
}

/// `n` as a 32-byte big-endian word.
pub open spec fn word(n: nat) -> Seq<u8> {
    zeros(32 - be_bytes(n).len()) + be_bytes(n)
}

/// `address` as a 32-byte word.
pub open spec fn address_word(address: [u8; 20]) -> Seq<u8> {
    zeros(12) + address@
}

/// The half-bytes of a byte string, the upper half of each byte first.
pub open spec fn nibbles(bytes: Seq<u8>) -> Seq<u8> {
    Seq::new(
        2 * bytes.len(),
        |i: int|
            if i % 2 == 0 {
                bytes[i / 2] / 16
            } else {
                bytes[i / 2] % 16
            },
    )
}

/// The byte strings in a list of byte vectors.
pub open spec fn byte_strings(list: Seq<Vec<u8>>) -> Seq<Seq<u8>> {
    list.map_values(|bytes: Vec<u8>| bytes@)
}

/// Whether two byte arrays are equal.
pub fn array_eq<const N: usize>(a: &[u8; N], b: &[u8; N]) -> (equal: bool)
    ensures
        equal == (*a == *b),
{
    for i in 0..N
        invariant
            forall|j: int| 0 <= j < i ==> a[j] == b[j],
    {
        if a[i] != b[i] {
            return false;
        }
    }
    assert(*a =~= *b);
    true
}

/// Taking digits and putting them together again gives the number back.
pub proof fn be_value_of_be_bytes(n: nat)
    ensures
        be_value(be_bytes(n)) == n,
    decreases n,
{
    if n > 0 {
        be_value_of_be_bytes(n / 256);
        assert(be_bytes(n).drop_last() =~= be_bytes(n / 256));
    }
}

/// Leading zeros do not change a number.
pub proof fn be_value_of_padded(count: int, digits: Seq<u8>)
    requires
        0 <= count,
    ensures
        be_value(zeros(count) + digits) == be_value(digits),
    decreases count + digits.len(),
{
    let padded = zeros(count) + digits;
    if digits.len() > 0 {
        assert(padded.drop_last() =~= zeros(count) + digits.drop_last());
        be_value_of_padded(count, digits.drop_last());
    } else if count > 0 {
        assert(padded.drop_last() =~= zeros(count - 1) + digits);
        be_value_of_padded(count - 1, digits);
    }
}

/// 256 to the power `k`.
pub open spec fn pow256(k: nat) -> nat
    decreases k,
{
    if k == 0 {
        1
    } else {
        256 * pow256((k - 1) as nat)
    }
}

/// A number below 256 to the power `k` has at most `k` digits.
pub proof fn be_bytes_len(n: nat, k: nat)
    requires
        n < pow256(k),
    ensures
        be_bytes(n).len() <= k,
    decreases k,
{
    if n > 0 {
        assert(n / 256 < pow256((k - 1) as nat));
        be_bytes_len(n / 256, (k - 1) as nat);
    }
}

/// A 64-bit number fills one word, from which it can be read back.
pub proof fn word_of_u64(n: u64)
    ensures
        word(n as nat).len() == 32,
        be_value(word(n as nat)) == n,
{
    reveal_with_fuel(pow256, 9);
    be_bytes_len(n as nat, 8);
    be_value_of_padded(32 - be_bytes(n as nat).len(), be_bytes(n as nat));
    be_value_of_be_bytes(n as nat);
}

} // verus!
