use vstd::prelude::*;

use crate::codec::{as_signed, LitBool, LitChar, LitFloat, LitInt, LitStr};
use crate::floatbits::f64_bits_is_nan;

verus! {

/// Round trip for a string codec: the wire form `encode` produces — the
/// bound string itself — is accepted by `visit_str`.
pub proof fn lemma_round_trip_str(k: LitStr)
    ensures
        k.spec_accepts(k.lit@),
{
}

/// Round trip for a float codec: the bit pattern `encode` produces is
/// accepted by `visit_f64`, for every constant that is not a NaN. A NaN
/// constant is the one exception: IEEE-754 `==` rejects it against itself,
/// so a NaN-bound codec accepts nothing at all.
pub proof fn lemma_round_trip_float(k: LitFloat)
    requires
        !f64_bits_is_nan(k.bits),
    ensures
        k.spec_accepts(k.bits),
{
}

/// Round trip for an integer codec: the signed number `encode` produces is
/// accepted by `visit_i64`.
pub proof fn lemma_round_trip_int(k: LitInt)
    ensures
        k.spec_accepts_signed(k.n),
{
}

/// Round trip for a boolean codec: the boolean `encode` produces is accepted
/// by `visit_bool`.
pub proof fn lemma_round_trip_bool(k: LitBool)
    ensures
        k.spec_accepts(k.b),
{
}

/// Round trip for a character codec: the one-character wire string
/// `encode_str` produces is accepted by `visit_str`.
pub proof fn lemma_round_trip_char(k: LitChar)
    ensures
        k.spec_accepts(seq![k.c]),
{
}

/// Cross-kind acceptance: a wire number whose value equals the bound
/// constant is accepted whichever signedness the decoder delivers it in.
pub proof fn lemma_int_cross_kind(k: LitInt, v: u64)
    requires
        v as int == k.n as int,
    ensures
        k.spec_accepts_unsigned(v),
        k.spec_accepts_signed(k.n),
{
}

/// Unsigned acceptance is exactly wrapping reinterpretation: an unsigned
/// candidate is accepted iff reinterpreting it as a signed 64-bit number —
/// wrapping silently for values past the signed range — yields the bound
/// constant. In particular every codec accepts exactly one unsigned wire
/// value.
pub proof fn lemma_int_unsigned_wrap(k: LitInt, v: u64, w: u64)
    requires
        k.spec_accepts_unsigned(v),
        k.spec_accepts_unsigned(w),
    ensures
        v == w,
        v as int == k.n as int || v as int == k.n as int + 0x1_0000_0000_0000_0000,
{
    assert(as_signed(v) == as_signed(w));
}

/// Character prefix policy: a character codec accepts every delivered string
/// that starts with its bound character, the exact one-character string
/// included, whatever follows the first character.
pub proof fn lemma_char_prefix(k: LitChar, v: Seq<char>)
    requires
        v.len() > 0,
        v[0] == k.c,
    ensures
        k.spec_accepts(v),
        k.spec_accepts(seq![k.c] + v.subrange(1, v.len() as int)),
{
    assert((seq![k.c] + v.subrange(1, v.len() as int))[0] == k.c);
}

} // verus!
