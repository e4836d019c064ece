//! Laws that relate the parameter encoder and the row decoder.
use vstd::prelude::*;

use crate::decode::{column_decodes_to, column_fault};
use crate::encode::encodes_as;
use crate::value::{column_type_of, Param, Value, BOOL_OID, INT4_OID, INT8_OID};
use crate::wire::{be_bytes, be_image, be_signed, be_unsigned, pow256, utf8_text};

verus! {

/// The binary image in which the server stores and sends back a `BOOL` or an
/// `INT4` parameter.
pub open spec fn param_wire(p: Param) -> Seq<u8> {
    match p {
        Param::Bool(b) => seq![if b { 1u8 } else { 0u8 }],
        Param::Int4(i) => be_image(i as int, 4),
        _ => Seq::empty(),
    }
}

/// The type object identifier of a `BOOL` or an `INT4` parameter.
pub open spec fn param_type_oid(p: Param) -> u32 {
    match p {
        Param::Bool(_) => BOOL_OID,
        _ => INT4_OID,
    }
}

proof fn lemma_pow256_positive(n: nat)
    ensures
        pow256(n) > 0,
    decreases n,
{
    if n > 0 {
        lemma_pow256_positive((n - 1) as nat);
    }
}

/// Reading back the bytes of `x` gives `x` modulo `256` to the power `n`.
proof fn lemma_be_bytes(x: nat, n: nat)
    ensures
        be_bytes(x, n).len() == n,
        be_unsigned(be_bytes(x, n)) == x % pow256(n),
    decreases n,
{
    if n == 0 {
        assert(be_unsigned(be_bytes(x, n)) == 0);
    } else {
        let m = (n - 1) as nat;
        lemma_be_bytes(x / 256, m);
        lemma_pow256_positive(m);
        let s = be_bytes(x, n);
        assert(s.drop_last() =~= be_bytes(x / 256, m));
        vstd::arithmetic::div_mod::lemma_mod_breakdown(x as int, 256, pow256(m) as int);
        assert(be_unsigned(s) == be_unsigned(be_bytes(x / 256, m)) * 256 + x % 256);
        assert(be_unsigned(s) == ((x / 256) % pow256(m)) * 256 + x % 256);
    }
}

/// Reading back the `n`-byte two's-complement image of a number that fits
/// in `n` bytes gives the number itself.
proof fn lemma_be_image(x: int, n: nat)
    requires
        n > 0,
        -pow256(n) <= 2 * x < pow256(n),
    ensures
        be_signed(be_image(x, n)) == x,
        be_image(x, n).len() == n,
{
    lemma_pow256_positive(n);
    let u: nat = if x >= 0 {
        x as nat
    } else {
        (x + pow256(n)) as nat
    };
    lemma_be_bytes(u, n);
    vstd::arithmetic::div_mod::lemma_small_mod(u, pow256(n));
}

proof fn lemma_pow256_four_eight()
    ensures
        pow256(4) == 4294967296,
        pow256(8) == 18446744073709551616,
{
    reveal_with_fuel(pow256, 9);
}

/// Round trip: a `Bool` or an `Int` value is bound as a parameter whose
/// binary image, stored in a column of the parameter's type and read back,
/// decodes to the value itself.
pub proof fn lemma_scalar_round_trip(v: Value, p: Param)
    requires
        encodes_as(v, p),
        v is Bool || v is Int,
    ensures
        column_fault(param_type_oid(p), Some(param_wire(p))) is None,
        column_decodes_to(param_type_oid(p), Some(param_wire(p)), v),
{
    if let Value::Int(i) = v {
        lemma_pow256_four_eight();
        lemma_be_image(i as int, 4);
    }
}

/// Narrowing of `INT8` columns: the 8-byte image of `x` decodes to the low
/// 32 bits of `x`, which is `x` itself when `x` fits in 32 bits.
pub proof fn lemma_int8_narrowing(x: i64)
    ensures
        column_decodes_to(INT8_OID, Some(be_image(x as int, 8)), Value::Int(x as i32)),
        i32::MIN <= x <= i32::MAX ==> x as i32 == x,
{
    lemma_pow256_four_eight();
    lemma_be_image(x as int, 8);
}

/// Round trip of text: whatever bytes encode a text in UTF-8, read back from
/// a `TEXT` column, decode to a `String` holding that text.
pub proof fn lemma_text_round_trip(v: Value, d: Seq<u8>)
    requires
        v matches Value::String(s) && utf8_text(d) == Some(s@),
    ensures
        column_fault(crate::value::TEXT_OID, Some(d)) is None,
        column_decodes_to(crate::value::TEXT_OID, Some(d), v),
{
}

/// `Void` is bound as SQL NULL, and SQL NULL in a column of any type that has
/// a decoding rule decodes to `Void`.
pub proof fn lemma_void_is_null(p: Param, oid: u32)
    requires
        encodes_as(Value::Void, p),
        column_type_of(oid).is_supported(),
    ensures
        p is Null,
        column_fault(oid, None) is None,
        column_decodes_to(oid, None, Value::Void),
{
}

} // verus!
