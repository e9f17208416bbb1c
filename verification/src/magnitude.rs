//! Big integers of the `num-bigint` crate, the bytes that spell their
//! magnitude, and what is taken on trust of the crate.

use num_bigint::BigInt;
use num_bigint::Sign;
use vstd::math::abs;
use vstd::prelude::*;

verus! {

/// The order in which the bytes of a magnitude stand.
#[derive(Debug, Clone, Copy)]
pub enum Endian {
    /// Little-endian: the least significant byte comes first.
    LE,
    /// Big-endian: the most significant byte comes first.
    BE,
}

/// `num_bigint::BigInt`, an integer of any size. Verus sees nothing inside
/// it; [`bigint_value`] says which integer it is.
#[verifier::external_type_specification]
#[verifier::external_body]
pub struct ExBigInt(BigInt);

/// `num_bigint::Sign`. The enum has no fields, and Verus reads its three
/// variants from the crate.
#[verifier::external_type_specification]
pub struct ExSign(Sign);

/// The integer that a `BigInt` holds.
pub uninterp spec fn bigint_value(n: BigInt) -> int;

/// The number that `bytes` spell in base 256 with the most significant byte
/// first. No bytes at all spell zero.
pub open spec fn be_value(bytes: Seq<u8>) -> nat
    decreases bytes.len(),
{
    if bytes.len() == 0 {
        0
    } else {
        be_value(bytes.drop_last()) * 256 + bytes.last() as nat
    }
}

/// The shortest bytes that spell `m` with the most significant byte first.
/// Zero is the single byte 0, so the result is never empty.
pub open spec fn be_bytes(m: nat) -> Seq<u8>
    decreases m,
{
    if m < 256 {
        seq![m as u8]
    } else {
        be_bytes(m / 256).push((m % 256) as u8)
    }
}

/// The number that `bytes` spell in the order `endian`.
pub open spec fn value_of(bytes: Seq<u8>, endian: Endian) -> nat {
    match endian {
        Endian::BE => be_value(bytes),
        Endian::LE => be_value(bytes.reverse()),
    }
}

/// The shortest bytes that spell `m` in the order `endian`.
pub open spec fn bytes_of(m: nat, endian: Endian) -> Seq<u8> {
    match endian {
        Endian::BE => be_bytes(m),
        Endian::LE => be_bytes(m).reverse(),
    }
}

/// The sign that `num-bigint` gives an integer: `NoSign` is that of zero.
pub open spec fn sign_of(v: int) -> Sign {
    if v < 0 {
        Sign::Minus
    } else if v == 0 {
        Sign::NoSign
    } else {
        Sign::Plus
    }
}

/// The integer with the sign `sign` and the magnitude `m`. Under `NoSign`
/// it is zero, whatever `m` is.
pub open spec fn with_sign(sign: Sign, m: nat) -> int {
    match sign {
        Sign::Minus => -(m as int),
        Sign::NoSign => 0,
        Sign::Plus => m as int,
    }
}

/// `BigInt::to_bytes_be` returns the sign of the integer and the shortest
/// big-endian bytes of its magnitude, one zero byte for zero.
pub assume_specification[ BigInt::to_bytes_be ](n: &BigInt) -> (r: (Sign, Vec<u8>))
    ensures
        r.0 == sign_of(bigint_value(*n)),
        r.1@ == be_bytes(abs(bigint_value(*n))),
;

/// `BigInt::to_bytes_le` returns the sign of the integer and the shortest
/// little-endian bytes of its magnitude: those of `to_bytes_be` in reverse.
pub assume_specification[ BigInt::to_bytes_le ](n: &BigInt) -> (r: (Sign, Vec<u8>))
    ensures
        r.0 == sign_of(bigint_value(*n)),
        r.1@ == be_bytes(abs(bigint_value(*n))).reverse(),
;

/// `BigInt::from_bytes_be` returns the integer whose magnitude the bytes
/// spell with the most significant byte first, under the given sign.
pub assume_specification[ BigInt::from_bytes_be ](sign: Sign, bytes: &[u8]) -> (n: BigInt)
    ensures
        bigint_value(n) == with_sign(sign, be_value(bytes@)),
;

/// `BigInt::from_bytes_le` returns the integer whose magnitude the bytes
/// spell with the least significant byte first, under the given sign.
pub assume_specification[ BigInt::from_bytes_le ](sign: Sign, bytes: &[u8]) -> (n: BigInt)
    ensures
        bigint_value(n) == with_sign(sign, be_value(bytes@.reverse())),
;

/// The bytes of the magnitude of `n` in the order `endian`: the shortest
/// ones, and a single zero byte for zero. The sign of `n` is left out.
pub fn to_magnitude_bytes(n: &BigInt, endian: Endian) -> (bytes: Vec<u8>)
    ensures
        bytes@ == bytes_of(abs(bigint_value(*n)), endian),
{
    let (_, bytes) = match endian {
        Endian::BE => n.to_bytes_be(),
        Endian::LE => n.to_bytes_le(),
    };
    bytes
}

/// The integer whose magnitude `bytes` spell in the order `endian`. It is
/// never negative, and no bytes at all give zero.
pub fn from_magnitude_bytes(bytes: &[u8], endian: Endian) -> (n: BigInt)
    ensures
        bigint_value(n) == value_of(bytes@, endian),
{
    match endian {
        Endian::BE => BigInt::from_bytes_be(Sign::Plus, bytes),
        Endian::LE => BigInt::from_bytes_le(Sign::Plus, bytes),
    }
}

/// Reading the shortest big-endian bytes of `m` gives `m` back.
pub proof fn lemma_be_value_of_be_bytes(m: nat)
    ensures
        be_value(be_bytes(m)) == m,
    decreases m,
{
    if m < 256 {
        let one = seq![m as u8];
        assert(one.drop_last().len() == 0);
        assert(be_value(one.drop_last()) == 0);
    } else {
        let front = be_bytes(m / 256);
        let all = front.push((m % 256) as u8);
        lemma_be_value_of_be_bytes(m / 256);
        assert(all.drop_last() =~= front);
        assert(all.last() == (m % 256) as u8);
    }
}

/// Reading the shortest bytes of `m` in the order they were written in
/// gives `m` back.
pub proof fn lemma_value_of_bytes_of(m: nat, endian: Endian)
    ensures
        value_of(bytes_of(m, endian), endian) == m,
{
    lemma_be_value_of_be_bytes(m);
    assert(be_bytes(m).reverse().reverse() =~= be_bytes(m));
}

/// Bytes that begin with a byte other than zero spell a number other than
/// zero.
proof fn lemma_be_value_positive(bytes: Seq<u8>)
    requires
        bytes.len() >= 1,
        bytes[0] != 0,
    ensures
        be_value(bytes) >= 1,
    decreases bytes.len(),
{
    if bytes.len() > 1 {
        lemma_be_value_positive(bytes.drop_last());
    } else {
        assert(be_value(bytes.drop_last()) == 0);
    }
}

/// The shortest bytes are the only ones without a leading zero: big-endian
/// bytes that are a single byte, or begin with a byte other than zero, are
/// the shortest bytes of the number they spell.
pub proof fn lemma_be_bytes_of_be_value(bytes: Seq<u8>)
    requires
        bytes.len() == 1 || (bytes.len() > 1 && bytes[0] != 0),
    ensures
        be_bytes(be_value(bytes)) == bytes,
    decreases bytes.len(),
{
    let front = bytes.drop_last();
    if bytes.len() == 1 {
        assert(be_value(front) == 0);
        assert(seq![bytes[0]] =~= bytes);
    } else {
        lemma_be_value_positive(front);
        lemma_be_bytes_of_be_value(front);
        let v = be_value(bytes);
        assert(v / 256 == be_value(front) && v % 256 == bytes.last() as nat);
        assert(front.push(bytes.last()) =~= bytes);
    }
}

/// Writing the number that `bytes` spell in the order `endian` gives `bytes`
/// back, where `bytes` are a single byte or their most significant byte is
/// not zero.
pub proof fn lemma_bytes_of_value_of(bytes: Seq<u8>, endian: Endian)
    requires
        bytes.len() >= 1,
        bytes.len() > 1 ==> match endian {
            Endian::BE => bytes[0] != 0,
            Endian::LE => bytes.last() != 0,
        },
    ensures
        bytes_of(value_of(bytes, endian), endian) == bytes,
{
    match endian {
        Endian::BE => {
            lemma_be_bytes_of_be_value(bytes);
        },
        Endian::LE => {
            lemma_be_bytes_of_be_value(bytes.reverse());
            assert(bytes.reverse().reverse() =~= bytes);
        },
    }
}

} // verus!
