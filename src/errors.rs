//! Mapping native errors to the interpreter's exceptions.
use vstd::prelude::*;

use crate::value::ConversionError;

verus! {

/// The exception classes of the interpreter that errors map to.
#[derive(Debug, PartialEq, Eq, Structural, Clone, Copy)]
pub enum ExceptionClass {
    TypeError,
    ValueError,
    OverflowError,
    RuntimeError,
    AttributeError,
}

/// An exception as raised on the foreign side: its class and message.
#[derive(Debug, Clone, PartialEq)]
pub struct ForeignException {
    pub class: ExceptionClass,
    pub message: String,
}

/// Native errors that are raised on the foreign side as exceptions.
pub trait ToPythonError: Sized {
    /// The class and message of the exception this error becomes.
    spec fn exception_spec(&self) -> (ExceptionClass, Seq<char>);

    fn to_py_err(self) -> (r: ForeignException)
        ensures
            (r.class, r.message@) == self.exception_spec(),
    ;
}

impl ToPythonError for ForeignException {
    open spec fn exception_spec(&self) -> (ExceptionClass, Seq<char>) {
        (self.class, self.message@)
    }

    fn to_py_err(self) -> (r: ForeignException) {
        self
    }
}

/// The exception class each conversion failure is raised as.
pub open spec fn class_of(e: ConversionError) -> ExceptionClass {
    match e {
        ConversionError::WrongShape => ExceptionClass::TypeError,
        ConversionError::Narrowing => ExceptionClass::OverflowError,
        ConversionError::NoVariantMatched(_) => ExceptionClass::ValueError,
        ConversionError::WrongVariant => ExceptionClass::ValueError,
        ConversionError::Unimplemented(_) => ExceptionClass::RuntimeError,
        ConversionError::NoPayload(_) => ExceptionClass::RuntimeError,
        ConversionError::UnknownField => ExceptionClass::AttributeError,
        ConversionError::Invalid => ExceptionClass::ValueError,
    }
}

/// The message each conversion failure is raised with.
pub open spec fn message_of(e: ConversionError) -> Seq<char> {
    match e {
        ConversionError::WrongShape => "value has the wrong type"@,
        ConversionError::Narrowing => "value out of range for the target type"@,
        ConversionError::NoVariantMatched(message) => message@,
        ConversionError::WrongVariant => "value is another variant"@,
        ConversionError::Unimplemented(name) => "variant has no conversion: "@ + name@,
        ConversionError::NoPayload(name) => "variant has no inner data: "@ + name@,
        ConversionError::UnknownField => "no such field"@,
        ConversionError::Invalid => "components do not make a valid value"@,
    }
}

impl ToPythonError for ConversionError {
    open spec fn exception_spec(&self) -> (ExceptionClass, Seq<char>) {
        (class_of(*self), message_of(*self))
    }

    fn to_py_err(self) -> (r: ForeignException) {
        let (class, message) = match self {
            ConversionError::WrongShape => (
                ExceptionClass::TypeError,
                String::from_str("value has the wrong type"),
            ),
            ConversionError::Narrowing => (
                ExceptionClass::OverflowError,
                String::from_str("value out of range for the target type"),
            ),
            ConversionError::NoVariantMatched(message) => (ExceptionClass::ValueError, message),
            ConversionError::WrongVariant => (
                ExceptionClass::ValueError,
                String::from_str("value is another variant"),
            ),
            ConversionError::Unimplemented(name) => {
                let mut m = String::from_str("variant has no conversion: ");
                m.append(name.as_str());
                (ExceptionClass::RuntimeError, m)
            },
            ConversionError::NoPayload(name) => {
                let mut m = String::from_str("variant has no inner data: ");
                m.append(name.as_str());
                (ExceptionClass::RuntimeError, m)
            },
            ConversionError::UnknownField => (
                ExceptionClass::AttributeError,
                String::from_str("no such field"),
            ),
            ConversionError::Invalid => (
                ExceptionClass::ValueError,
                String::from_str("components do not make a valid value"),
            ),
        };
        ForeignException { class, message }
    }
}

} // verus!
