use vstd::prelude::*;
use vstd::string::{StrSliceExecFns, StringExecFns};

use crate::error::{Expected, Found, Mismatch};
use crate::floatbits::{f64_bits_eq, F64_ABS_MASK, F64_EXP_MASK, F64_FRAC_MASK};
use crate::render::{i64_to_dec, int_rep, lit_desc, push_char};

verus! {

/// The value an unsigned 64-bit wire number stands for once it is
/// reinterpreted as a signed 64-bit number: the two's-complement wrap the
/// integer codec applies before comparing against its bound constant.
pub open spec fn as_signed(v: u64) -> int {
    if v as int <= i64::MAX as int {
        v as int
    } else {
        v as int - 0x1_0000_0000_0000_0000
    }
}

/// A codec bound to one string constant. It accepts exactly that string:
/// no case folding, no trimming.
pub struct LitStr {
    /// The bound string constant.
    pub lit: String,
}

impl LitStr {
    /// Bind a string constant.
    pub fn new(lit: String) -> (r: LitStr)
        ensures
            r.lit == lit,
    {
        LitStr { lit }
    }

    /// Whether the codec accepts a delivered string.
    pub open spec fn spec_accepts(self, v: Seq<char>) -> bool {
        v == self.lit@
    }

    /// Test a delivered string: accepted iff it equals the bound constant
    /// exactly; otherwise a mismatch naming the delivered string and the
    /// expected literal.
    pub fn visit_str(&self, v: &str) -> (r: Result<(), Mismatch>)
        ensures
            r is Ok <==> self.spec_accepts(v@),
            r matches Err(m) ==> {
                &&& m.found matches Found::Str(f) && f@ == v@
                &&& m.expected matches Expected::Str(e) && e@ == self.lit@
            },
    {
        let delivered = String::from_str(v);
        if delivered == self.lit {
            Ok(())
        } else {
            Err(Mismatch { found: Found::Str(delivered), expected: Expected::Str(self.lit.clone()) })
        }
    }

    /// The bare wire form of the bound constant: the string itself.
    pub fn encode(&self) -> (r: String)
        ensures
            r@ == self.lit@,
    {
        self.lit.clone()
    }

    /// The diagnostic description of the bound literal: `the lit <value>`.
    pub fn expecting(&self) -> (r: String)
        ensures
            r@ == lit_desc(self.lit@),
    {
        String::from_str("the lit ").concat(self.lit.as_str())
    }
}

/// A codec bound to one 64-bit float constant, held as its IEEE-754 bit
/// pattern. Acceptance is IEEE-754 `==`: the two zeros match each other, and
/// a NaN constant can never match anything. Rendering the constant for a
/// diagnostic message is floating-point formatting and is left to the
/// embedding layer, which holds the float value itself.
pub struct LitFloat {
    /// The IEEE-754 bit pattern of the bound float constant.
    pub bits: u64,
}

impl LitFloat {
    /// Bind a float constant given by its IEEE-754 bit pattern.
    pub fn new(bits: u64) -> (r: LitFloat)
        ensures
            r.bits == bits,
    {
        LitFloat { bits }
    }

    /// Whether the codec accepts a delivered float with this bit pattern.
    pub open spec fn spec_accepts(self, v: u64) -> bool {
        f64_bits_eq(self.bits, v)
    }

    /// Test a delivered float, given as its IEEE-754 bit pattern: accepted
    /// iff IEEE-754 `==` holds against the bound constant; otherwise a
    /// mismatch naming the delivered float and the expected literal.
    pub fn visit_f64(&self, v: u64) -> (r: Result<(), Mismatch>)
        ensures
            r is Ok <==> self.spec_accepts(v),
            r matches Err(m) ==> {
                &&& m.found == Found::FloatBits(v)
                &&& m.expected == Expected::FloatBits(self.bits)
            },
    {
        let c_nan = (self.bits & F64_EXP_MASK) == F64_EXP_MASK
            && (self.bits & F64_FRAC_MASK) != 0;
        let v_nan = (v & F64_EXP_MASK) == F64_EXP_MASK && (v & F64_FRAC_MASK) != 0;
        let both_zero = (self.bits & F64_ABS_MASK) == 0 && (v & F64_ABS_MASK) == 0;
        if !c_nan && !v_nan && (self.bits == v || both_zero) {
            Ok(())
        } else {
            Err(Mismatch { found: Found::FloatBits(v), expected: Expected::FloatBits(self.bits) })
        }
    }

    /// The bare wire form of the bound constant: its own bit pattern.
    pub fn encode(&self) -> (r: u64)
        ensures
            r == self.bits,
    {
        self.bits
    }
}

/// A codec bound to one signed 64-bit integer constant. It accepts a wire
/// number delivered in either signedness: a signed candidate must equal the
/// constant, an unsigned candidate is reinterpreted as signed (wrapping) and
/// must then equal the constant.
pub struct LitInt {
    /// The bound integer constant.
    pub n: i64,
}

impl LitInt {
    /// Bind an integer constant.
    pub fn new(n: i64) -> (r: LitInt)
        ensures
            r.n == n,
    {
        LitInt { n }
    }

    /// Whether the codec accepts a candidate delivered as signed.
    pub open spec fn spec_accepts_signed(self, v: i64) -> bool {
        v == self.n
    }

    /// Whether the codec accepts a candidate delivered as unsigned.
    pub open spec fn spec_accepts_unsigned(self, v: u64) -> bool {
        as_signed(v) == self.n as int
    }

    /// Test a candidate delivered as a signed number: accepted iff it equals
    /// the bound constant; otherwise a mismatch tagged with the candidate's
    /// signed presentation.
    pub fn visit_i64(&self, v: i64) -> (r: Result<(), Mismatch>)
        ensures
            r is Ok <==> self.spec_accepts_signed(v),
            r matches Err(m) ==> {
                &&& m.found == Found::Signed(v)
                &&& m.expected == Expected::Int(self.n)
            },
    {
        if v == self.n {
            Ok(())
        } else {
            Err(Mismatch { found: Found::Signed(v), expected: Expected::Int(self.n) })
        }
    }

    /// Test a candidate delivered as an unsigned number: accepted iff its
    /// value, reinterpreted as signed (so wrapping past the signed range),
    /// equals the bound constant; otherwise a mismatch tagged with the
    /// candidate's unsigned presentation.
    pub fn visit_u64(&self, v: u64) -> (r: Result<(), Mismatch>)
        ensures
            r is Ok <==> self.spec_accepts_unsigned(v),
            r matches Err(m) ==> {
                &&& m.found == Found::Unsigned(v)
                &&& m.expected == Expected::Int(self.n)
            },
    {
        let reinterpreted: i128 = if v <= 0x7FFF_FFFF_FFFF_FFFF {
            v as i128
        } else {
            (v as i128) - 0x1_0000_0000_0000_0000i128
        };
        if reinterpreted == self.n as i128 {
            Ok(())
        } else {
            Err(Mismatch { found: Found::Unsigned(v), expected: Expected::Int(self.n) })
        }
    }

    /// The bare wire form of the bound constant: the signed number itself.
    pub fn encode(&self) -> (r: i64)
        ensures
            r == self.n,
    {
        self.n
    }

    /// The diagnostic description of the bound literal: `the lit <value>`.
    pub fn expecting(&self) -> (r: String)
        ensures
            r@ == lit_desc(int_rep(self.n as int)),
    {
        let digits = i64_to_dec(self.n);
        String::from_str("the lit ").concat(digits.as_str())
    }
}

/// A codec bound to one boolean constant. Only boolean-shaped wire values
/// reach it, and it accepts exactly its bound constant.
pub struct LitBool {
    /// The bound boolean constant.
    pub b: bool,
}

impl LitBool {
    /// Bind a boolean constant.
    pub fn new(b: bool) -> (r: LitBool)
        ensures
            r.b == b,
    {
        LitBool { b }
    }

    /// Whether the codec accepts a delivered boolean.
    pub open spec fn spec_accepts(self, v: bool) -> bool {
        v == self.b
    }

    /// Test a delivered boolean: accepted iff it equals the bound constant;
    /// otherwise a mismatch naming the delivered boolean.
    pub fn visit_bool(&self, v: bool) -> (r: Result<(), Mismatch>)
        ensures
            r is Ok <==> self.spec_accepts(v),
            r matches Err(m) ==> {
                &&& m.found == Found::Bool(v)
                &&& m.expected == Expected::Bool(self.b)
            },
    {
        if v == self.b {
            Ok(())
        } else {
            Err(Mismatch { found: Found::Bool(v), expected: Expected::Bool(self.b) })
        }
    }

    /// The bare wire form of the bound constant: the boolean itself.
    pub fn encode(&self) -> (r: bool)
        ensures
            r == self.b,
    {
        self.b
    }

    /// The diagnostic description of the bound literal: `the lit true` or
    /// `the lit false`.
    pub fn expecting(&self) -> (r: String)
        ensures
            r@ == lit_desc(if self.b { "true"@ } else { "false"@ }),
    {
        if self.b {
            let r = String::from_str("the lit true");
            proof {
                reveal_strlit("the lit true");
                reveal_strlit("the lit ");
                reveal_strlit("true");
                assert(r@ =~= lit_desc("true"@));
            }
            r
        } else {
            let r = String::from_str("the lit false");
            proof {
                reveal_strlit("the lit false");
                reveal_strlit("the lit ");
                reveal_strlit("false");
                assert(r@ =~= lit_desc("false"@));
            }
            r
        }
    }
}

/// A codec bound to one character constant. The wire format models
/// characters as short strings, so the decoder delivers a string; the codec
/// accepts any delivered string whose first character equals the bound
/// constant, ignoring what follows — a looser policy than the whole-value
/// equality of the other kinds.
pub struct LitChar {
    /// The bound character constant.
    pub c: char,
}

impl LitChar {
    /// Bind a character constant.
    pub fn new(c: char) -> (r: LitChar)
        ensures
            r.c == c,
    {
        LitChar { c }
    }

    /// Whether the codec accepts a delivered string.
    pub open spec fn spec_accepts(self, v: Seq<char>) -> bool {
        v.len() > 0 && v[0] == self.c
    }

    /// Test a delivered string: accepted iff it is non-empty and its first
    /// character equals the bound constant; otherwise a mismatch naming the
    /// delivered string.
    pub fn visit_str(&self, v: &str) -> (r: Result<(), Mismatch>)
        ensures
            r is Ok <==> self.spec_accepts(v@),
            r matches Err(m) ==> {
                &&& m.found matches Found::Str(f) && f@ == v@
                &&& m.expected == Expected::Char(self.c)
            },
    {
        if v.unicode_len() > 0 && v.get_char(0) == self.c {
            Ok(())
        } else {
            Err(Mismatch {
                found: Found::Str(String::from_str(v)),
                expected: Expected::Char(self.c),
            })
        }
    }

    /// The bare wire form of the bound constant: the character primitive.
    pub fn encode(&self) -> (r: char)
        ensures
            r == self.c,
    {
        self.c
    }

    /// The canonical wire string for the bound constant, in a format that
    /// models characters as one-character strings.
    pub fn encode_str(&self) -> (r: String)
        ensures
            r@ == seq![self.c],
    {
        let mut r = String::new();
        push_char(&mut r, self.c);
        proof {
            assert(r@ =~= seq![self.c]);
        }
        r
    }

    /// The diagnostic description of the bound literal: `the lit <char>`.
    pub fn expecting(&self) -> (r: String)
        ensures
            r@ == lit_desc(seq![self.c]),
    {
        let mut r = String::from_str("the lit ");
        push_char(&mut r, self.c);
        proof {
            assert(r@ =~= lit_desc(seq![self.c]));
        }
        r
    }
}

} // verus!
