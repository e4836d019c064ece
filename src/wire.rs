//! The binary wire format of the column values the adapter decodes.
//!
//! Decoding itself is done by `postgres-types`; this module states what each
//! of its decoders returns.
use vstd::prelude::*;

verus! {

/// `256` to the power `n`.
pub open spec fn pow256(n: nat) -> nat
    decreases n,
{
    if n == 0 {
        1
    } else {
        256 * pow256((n - 1) as nat)
    }
}

/// The unsigned number that a sequence of bytes spells, most significant first.
pub open spec fn be_unsigned(s: Seq<u8>) -> nat
    decreases s.len(),
{
    if s.len() == 0 {
        0
    } else {
        be_unsigned(s.drop_last()) * 256 + s.last() as nat
    }
}

/// The two's-complement number that a sequence of bytes spells, most significant first.
pub open spec fn be_signed(s: Seq<u8>) -> int {
    if s.len() > 0 && 2 * be_unsigned(s) >= pow256(s.len()) {
        be_unsigned(s) - pow256(s.len())
    } else {
        be_unsigned(s) as int
    }
}

/// The `n` bytes, most significant first, that spell `x` modulo `256` to the power `n`.
pub open spec fn be_bytes(x: nat, n: nat) -> Seq<u8>
    decreases n,
{
    if n == 0 {
        Seq::empty()
    } else {
        be_bytes(x / 256, (n - 1) as nat).push((x % 256) as u8)
    }
}

/// The `n`-byte two's-complement image of `x`, most significant byte first.
pub open spec fn be_image(x: int, n: nat) -> Seq<u8> {
    if x >= 0 {
        be_bytes(x as nat, n)
    } else {
        be_bytes((x + pow256(n)) as nat, n)
    }
}

/// The text that a sequence of bytes encodes in UTF-8, if it is valid UTF-8.
pub uninterp spec fn utf8_text(raw: Seq<u8>) -> Option<Seq<char>>;

/// Relies on `FromSql for bool` of postgres-types (`bool_from_sql` of
/// postgres-protocol): one byte, true when it is not zero; any other length is
/// an error.
#[verifier::external_body]
pub(crate) fn bool_from_wire(raw: &[u8]) -> (r: Option<bool>)
    ensures
        r == (if raw@.len() == 1 {
            Some(raw@[0] != 0)
        } else {
            None::<bool>
        }),
{
    <bool as postgres_types::FromSql>::from_sql(&postgres_types::Type::BOOL, raw).ok()
}

/// Relies on `FromSql for i16` of postgres-types (`int2_from_sql` of
/// postgres-protocol): exactly two bytes, big-endian two's complement.
#[verifier::external_body]
pub(crate) fn int2_from_wire(raw: &[u8]) -> (r: Option<i16>)
    ensures
        r is Some <==> raw@.len() == 2,
        r matches Some(v) ==> v as int == be_signed(raw@),
{
    <i16 as postgres_types::FromSql>::from_sql(&postgres_types::Type::INT2, raw).ok()
}

/// Relies on `FromSql for i32` of postgres-types (`int4_from_sql` of
/// postgres-protocol): exactly four bytes, big-endian two's complement.
#[verifier::external_body]
pub(crate) fn int4_from_wire(raw: &[u8]) -> (r: Option<i32>)
    ensures
        r is Some <==> raw@.len() == 4,
        r matches Some(v) ==> v as int == be_signed(raw@),
{
    <i32 as postgres_types::FromSql>::from_sql(&postgres_types::Type::INT4, raw).ok()
}

/// Relies on `FromSql for i64` of postgres-types (`int8_from_sql` of
/// postgres-protocol): exactly eight bytes, big-endian two's complement.
#[verifier::external_body]
pub(crate) fn int8_from_wire(raw: &[u8]) -> (r: Option<i64>)
    ensures
        r is Some <==> raw@.len() == 8,
        r matches Some(v) ==> v as int == be_signed(raw@),
{
    <i64 as postgres_types::FromSql>::from_sql(&postgres_types::Type::INT8, raw).ok()
}

/// Relies on `FromSql for String` of postgres-types (`text_from_sql` of
/// postgres-protocol, which is `str::from_utf8`): the text the bytes encode in
/// UTF-8, and an error exactly when they are not valid UTF-8.
#[verifier::external_body]
pub(crate) fn text_from_wire(raw: &[u8]) -> (r: Option<String>)
    ensures
        r is None <==> utf8_text(raw@) is None,
        r matches Some(s) ==> utf8_text(raw@) == Some(s@),
{
    <String as postgres_types::FromSql>::from_sql(&postgres_types::Type::TEXT, raw).ok()
}

/// Relies on `FromSql for Vec<u8>` of postgres-types (`bytea_from_sql` of
/// postgres-protocol): a copy of the bytes, never an error.
#[verifier::external_body]
pub(crate) fn bytea_from_wire(raw: &[u8]) -> (r: Option<Vec<u8>>)
    ensures
        r is Some,
        r matches Some(v) ==> v@ == raw@,
{
    <Vec<u8> as postgres_types::FromSql>::from_sql(&postgres_types::Type::BYTEA, raw).ok()
}

} // verus!
