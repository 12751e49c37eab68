//! The failures that the library reports.

use crate::cpp_type::CppType;
use crate::text::texts_of;
use vstd::prelude::*;

verus! {

/// Why an operation did not produce a result.
#[derive(Debug)]
pub enum Error {
    /// A substitution met a template parameter whose index is beyond the
    /// supplied arguments.
    NotEnoughTemplateArguments,
    /// A template instantiation has another number of arguments than the
    /// function has template parameters.
    TemplateArgumentsCountMismatch,
    /// Template parameters are left in a function after a substitution.
    ExtraTemplateParametersLeft,
    /// A class type with template arguments is not a known instantiation.
    TypeNotAvailable(CppType),
    /// A template parameter has neither a spelling nor a caption.
    UnexpectedTemplateParameter,
    /// A function pointer that takes variadic arguments has no spelling.
    VariadicFunctionPointer,
    /// A function pointer is spelled around a name, and none was given.
    MissingFunctionPointerName,
    /// A name was given to spell a function pointer around, and the type is
    /// none.
    UnexpectedFunctionPointerName,
    /// A function pointer holds a type that cannot cross the boundary.
    UnsupportedFunctionPointer,
    /// A constructor or destructor always places its object somewhere.
    AllocationPlaceNotApplicable,
    /// A conversion operator has no symbolic token.
    ConversionOperatorHasNoToken,
    /// No caption strategy tells the overloads of a base name apart.
    AmbiguousOverloads,
    /// A step names a prerequisite that is not registered.
    UnknownStepDependency(String),
    /// The prerequisites of the steps form a cycle.
    CyclicStepDependency,
}

/// Whether an executable result is the expected text or the expected failure.
pub open spec fn text_result_is(
    r: Result<String, Error>,
    expected: Result<Seq<char>, Error>,
) -> bool {
    match expected {
        Ok(s) => r is Ok && r->Ok_0@ == s,
        Err(e) => r is Err && r->Err_0 == e,
    }
}

/// Whether an executable result is the expected texts or the expected
/// failure.
pub open spec fn texts_result_is(
    r: Result<Vec<String>, Error>,
    expected: Result<Seq<Seq<char>>, Error>,
) -> bool {
    match expected {
        Ok(s) => r is Ok && texts_of(r->Ok_0@) == s,
        Err(e) => r is Err && r->Err_0 == e,
    }
}

/// The texts `done` followed by the texts of `rest`, or the failure of `rest`.
pub open spec fn texts_then(done: Seq<Seq<char>>, rest: Result<Seq<Seq<char>>, Error>) -> Result<
    Seq<Seq<char>>,
    Error,
> {
    match rest {
        Ok(texts) => Ok(done + texts),
        Err(e) => Err(e),
    }
}

} // verus!
