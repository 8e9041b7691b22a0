//! The types that a function can hand back through the call protocol.

use crate::error::{ErrorData, HyperlightError};
use crate::types::{ReturnData, ReturnType, ReturnValue};
use vstd::prelude::*;

verus! {

/// A type whose values can be handed back through the call protocol as `T`.
pub trait SupportedReturnType<T>: Sized {
    /// The discriminator under which values of this type travel.
    spec fn hyperlight_type() -> ReturnType;

    /// The value as it travels.
    spec fn hyperlight_value(&self) -> ReturnData;

    /// What a `T` that was taken out of a travelling value stands for.
    spec fn wrapped(t: T) -> ReturnData;

    /// Gets the return type of the supported return value.
    fn get_hyperlight_type() -> (t: ReturnType)
        ensures
            t == Self::hyperlight_type(),
    ;

    /// Gets the value of the supported return value.
    fn get_hyperlight_value(&self) -> (v: ReturnValue)
        ensures
            v@ == self.hyperlight_value(),
            v@.return_type() == Self::hyperlight_type(),
    ;

    /// Gets the inner value of the supported return type: a value of this type's
    /// discriminator gives what it holds, any other is refused.
    fn get_inner(a: ReturnValue) -> (r: Result<T, HyperlightError>)
        ensures
            r is Ok <==> a@.return_type() == Self::hyperlight_type(),
            r matches Ok(x) ==> Self::wrapped(x) == a@,
            r matches Err(e) ==> e@ == (ErrorData::ReturnValueConversionFailure {
                expected: Self::hyperlight_type(),
                actual: a@.return_type(),
            }),
    ;
}

impl SupportedReturnType<()> for () {
    open spec fn hyperlight_type() -> ReturnType {
        ReturnType::Void
    }

    open spec fn hyperlight_value(&self) -> ReturnData {
        ReturnData::Void
    }

    open spec fn wrapped(t: ()) -> ReturnData {
        ReturnData::Void
    }

    fn get_hyperlight_type() -> (t: ReturnType) {
        ReturnType::Void
    }

    fn get_hyperlight_value(&self) -> (v: ReturnValue) {
        ReturnValue::Void
    }

    fn get_inner(a: ReturnValue) -> (r: Result<(), HyperlightError>) {
        match a {
            ReturnValue::Void => Ok(()),
            other => Err(
                HyperlightError::ReturnValueConversionFailure {
                    expected: ReturnType::Void,
                    actual: other.get_type(),
                },
            ),
        }
    }
}

impl SupportedReturnType<String> for String {
    open spec fn hyperlight_type() -> ReturnType {
        ReturnType::String
    }

    open spec fn hyperlight_value(&self) -> ReturnData {
        ReturnData::String(self@)
    }

    open spec fn wrapped(t: String) -> ReturnData {
        ReturnData::String(t@)
    }

    fn get_hyperlight_type() -> (t: ReturnType) {
        ReturnType::String
    }

    fn get_hyperlight_value(&self) -> (v: ReturnValue) {
        ReturnValue::String(self.clone())
    }

    fn get_inner(a: ReturnValue) -> (r: Result<String, HyperlightError>) {
        match a {
            ReturnValue::String(i) => Ok(i),
            other => Err(
                HyperlightError::ReturnValueConversionFailure {
                    expected: ReturnType::String,
                    actual: other.get_type(),
                },
            ),
        }
    }
}

impl SupportedReturnType<i32> for i32 {
    open spec fn hyperlight_type() -> ReturnType {
        ReturnType::Int
    }

    open spec fn hyperlight_value(&self) -> ReturnData {
        ReturnData::Int(*self)
    }

    open spec fn wrapped(t: i32) -> ReturnData {
        ReturnData::Int(t)
    }

    fn get_hyperlight_type() -> (t: ReturnType) {
        ReturnType::Int
    }

    fn get_hyperlight_value(&self) -> (v: ReturnValue) {
        ReturnValue::Int(*self)
    }

    fn get_inner(a: ReturnValue) -> (r: Result<i32, HyperlightError>) {
        match a {
            ReturnValue::Int(i) => Ok(i),
            other => Err(
                HyperlightError::ReturnValueConversionFailure {
                    expected: ReturnType::Int,
                    actual: other.get_type(),
                },
            ),
        }
    }
}

impl SupportedReturnType<i64> for i64 {
    open spec fn hyperlight_type() -> ReturnType {
        ReturnType::Long
    }

    open spec fn hyperlight_value(&self) -> ReturnData {
        ReturnData::Long(*self)
    }

    open spec fn wrapped(t: i64) -> ReturnData {
        ReturnData::Long(t)
    }

    fn get_hyperlight_type() -> (t: ReturnType) {
        ReturnType::Long
    }

    fn get_hyperlight_value(&self) -> (v: ReturnValue) {
        ReturnValue::Long(*self)
    }

    fn get_inner(a: ReturnValue) -> (r: Result<i64, HyperlightError>) {
        match a {
            ReturnValue::Long(i) => Ok(i),
            other => Err(
                HyperlightError::ReturnValueConversionFailure {
                    expected: ReturnType::Long,
                    actual: other.get_type(),
                },
            ),
        }
    }
}

impl SupportedReturnType<bool> for bool {
    open spec fn hyperlight_type() -> ReturnType {
        ReturnType::Bool
    }

    open spec fn hyperlight_value(&self) -> ReturnData {
        ReturnData::Bool(*self)
    }

    open spec fn wrapped(t: bool) -> ReturnData {
        ReturnData::Bool(t)
    }

    fn get_hyperlight_type() -> (t: ReturnType) {
        ReturnType::Bool
    }

    fn get_hyperlight_value(&self) -> (v: ReturnValue) {
        ReturnValue::Bool(*self)
    }

    fn get_inner(a: ReturnValue) -> (r: Result<bool, HyperlightError>) {
        match a {
            ReturnValue::Bool(i) => Ok(i),
            other => Err(
                HyperlightError::ReturnValueConversionFailure {
                    expected: ReturnType::Bool,
                    actual: other.get_type(),
                },
            ),
        }
    }
}

impl SupportedReturnType<Vec<u8>> for Vec<u8> {
    open spec fn hyperlight_type() -> ReturnType {
        ReturnType::VecBytes
    }

    open spec fn hyperlight_value(&self) -> ReturnData {
        ReturnData::VecBytes(self@)
    }

    open spec fn wrapped(t: Vec<u8>) -> ReturnData {
        ReturnData::VecBytes(t@)
    }

    fn get_hyperlight_type() -> (t: ReturnType) {
        ReturnType::VecBytes
    }

    fn get_hyperlight_value(&self) -> (v: ReturnValue) {
        ReturnValue::VecBytes(self.clone())
    }

    fn get_inner(a: ReturnValue) -> (r: Result<Vec<u8>, HyperlightError>) {
        match a {
            ReturnValue::VecBytes(i) => Ok(i),
            other => Err(
                HyperlightError::ReturnValueConversionFailure {
                    expected: ReturnType::VecBytes,
                    actual: other.get_type(),
                },
            ),
        }
    }
}

} // verus!
