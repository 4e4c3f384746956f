use vstd::prelude::*;

verus! {

/// A decoded primitive that failed acceptance, tagged with the
/// representation in which the decoder delivered it.
#[derive(Debug, PartialEq)]
pub enum Found {
    /// A delivered UTF-8 string.
    Str(String),
    /// A number delivered as a signed 64-bit integer.
    Signed(i64),
    /// A number delivered as an unsigned 64-bit integer.
    Unsigned(u64),
    /// A delivered boolean.
    Bool(bool),
    /// A delivered 64-bit float, as its IEEE-754 bit pattern.
    FloatBits(u64),
}

/// The literal a codec is bound to, as recorded in a mismatch report.
#[derive(Debug, PartialEq)]
pub enum Expected {
    /// A bound string constant.
    Str(String),
    /// A bound signed 64-bit integer constant.
    Int(i64),
    /// A bound boolean constant.
    Bool(bool),
    /// A bound character constant.
    Char(char),
    /// A bound 64-bit float constant, as its IEEE-754 bit pattern.
    FloatBits(u64),
}

/// The one error this library originates: a primitive of the right shape was
/// delivered, but its value differs from the bound constant. It carries the
/// delivered value and the expected literal, so that an embedding framework
/// can report both; to a dispatcher trying the arms of an untagged sum type
/// it only means "not this arm, try the next".
#[derive(Debug, PartialEq)]
pub struct Mismatch {
    /// The delivered value that was rejected.
    pub found: Found,
    /// The literal the rejecting codec is bound to.
    pub expected: Expected,
}

} // verus!
