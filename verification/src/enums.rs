//! The enumerated-type capability: every closed enum of the library
//! converts losslessly to and from a small integer code.

use vstd::prelude::*;

verus! {

/// A closed set of named values, each with a distinct small integer code.
///
/// `repr` and `from_repr` convert between a value and its code;
/// `count` reports how many values exist. Decoding a value's own code
/// always gives the value back (`lemma_round_trip`).
pub trait Enum: Sized + Copy {
    /// The code of a value.
    spec fn spec_repr(self) -> i32;

    /// The value with a given code, if any.
    spec fn spec_from_repr(code: i32) -> Option<Self>;

    /// The total number of values.
    spec fn spec_count() -> int;

    /// The values, in declaration order.
    spec fn spec_values() -> Seq<Self>;

    /// Returns the integer code of the value.
    fn repr(self) -> (c: i32)
        ensures
            c == self.spec_repr(),
    ;

    /// Returns the value with the passed code, or `None` if no value has
    /// that code.
    fn from_repr(code: i32) -> (r: Option<Self>)
        ensures
            r == Self::spec_from_repr(code),
    ;

    /// Returns the total number of values.
    fn count() -> (n: usize)
        ensures
            n as int == Self::spec_count(),
    ;

    /// Returns all the values, in declaration order.
    fn values() -> (v: Vec<Self>)
        ensures
            v@ == Self::spec_values(),
    ;

    /// There are exactly as many values as the count reports.
    proof fn lemma_values_count()
        ensures
            Self::spec_values().len() == Self::spec_count(),
    ;

    /// Decoding a value's own code gives the value back.
    proof fn lemma_round_trip(self)
        ensures
            Self::spec_from_repr(self.spec_repr()) == Some(self),
    ;
}

} // verus!
