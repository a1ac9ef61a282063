use vstd::prelude::*;
use crate::bins::Frequency;
use crate::error::TransformError;
use crate::signal::Signal;

verus! {

/// A type that can say what it is called, for messages and traces.
///
/// Primitive types go by their keyword, types of this library by their path
/// from the crate root.
pub trait Named {
    /// The characters of the type's name.
    spec fn type_label() -> Seq<char>;

    /// The type's name.
    fn label() -> (name: &'static str)
        ensures
            name@ == Self::type_label(),
    ;
}

impl Named for i16 {
    open spec fn type_label() -> Seq<char> {
        "i16"@
    }

    fn label() -> (name: &'static str) {
        "i16"
    }
}

impl Named for i64 {
    open spec fn type_label() -> Seq<char> {
        "i64"@
    }

    fn label() -> (name: &'static str) {
        "i64"
    }
}

impl Named for u32 {
    open spec fn type_label() -> Seq<char> {
        "u32"@
    }

    fn label() -> (name: &'static str) {
        "u32"
    }
}

impl Named for usize {
    open spec fn type_label() -> Seq<char> {
        "usize"@
    }

    fn label() -> (name: &'static str) {
        "usize"
    }
}

impl Named for Signal {
    open spec fn type_label() -> Seq<char> {
        "dft::signal::Signal"@
    }

    fn label() -> (name: &'static str) {
        "dft::signal::Signal"
    }
}

impl Named for Frequency {
    open spec fn type_label() -> Seq<char> {
        "dft::bins::Frequency"@
    }

    fn label() -> (name: &'static str) {
        "dft::bins::Frequency"
    }
}

impl Named for TransformError {
    open spec fn type_label() -> Seq<char> {
        "dft::error::TransformError"@
    }

    fn label() -> (name: &'static str) {
        "dft::error::TransformError"
    }
}

/// The name of the type of `value`.
pub fn get_type<T: Named>(value: T) -> (name: &'static str)
    ensures
        name@ == T::type_label(),
{
    T::label()
}

} // verus!
