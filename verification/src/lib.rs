//! Literal discriminant codecs.
//!
//! Each codec binds one fixed constant — a string, a 64-bit float (held as
//! its IEEE-754 bit pattern), a 64-bit signed integer, a boolean, or a single
//! character — and offers the two operations an untagged sum-type
//! serializer needs from a literal arm: test a delivered primitive for
//! acceptance against the bound constant, and hand the constant back in its
//! bare wire form. A rejected value yields a [`Mismatch`] report naming both
//! the delivered value and the expected literal; a dispatcher trying arms in
//! order reads it as "not this variant", never as a corrupt stream.

mod codec;
mod error;
mod floatbits;
mod laws;
mod render;

pub use codec::{as_signed, LitBool, LitChar, LitFloat, LitInt, LitStr};
pub use error::{Expected, Found, Mismatch};
pub use floatbits::{
    f64_bits_eq, f64_bits_is_nan, f64_bits_is_zero, f64_eq_bits, F64_ABS_MASK, F64_EXP_MASK,
    F64_FRAC_MASK,
};
pub use laws::{
    lemma_char_prefix, lemma_int_cross_kind, lemma_int_unsigned_wrap, lemma_round_trip_bool,
    lemma_round_trip_char, lemma_round_trip_float, lemma_round_trip_int, lemma_round_trip_str,
};
pub use render::{dec_digit, dec_rep, i64_to_dec, int_rep, lit_desc, u64_to_dec};
