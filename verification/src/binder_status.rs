//! The errors the services answer a refused request with: a binder status
//! made of an exception code, a service-specific error code and a message.

use vstd::prelude::*;

verus! {

/// The binder exception codes the services use.
#[derive(Clone, Copy, Debug, PartialEq, Eq, Structural)]
pub enum ExceptionCode {
    IllegalArgument,
    IllegalState,
    UnsupportedOperation,
    ServiceSpecific,
}

/// A refused request: the exception, the service-specific error code (zero
/// unless the error is service specific) and a message.
#[derive(Debug)]
pub struct ServiceError {
    pub exception: ExceptionCode,
    pub service_specific_error: i32,
    pub message: String,
}

/// `e` is the exception `code` with message `message`.
pub open spec fn is_exception(e: ServiceError, code: ExceptionCode, message: Seq<char>) -> bool {
    &&& e.exception == code
    &&& e.service_specific_error == 0
    &&& e.message@ == message
}

/// `e` is the service-specific error `code` with message `message`.
pub open spec fn is_service_specific(e: ServiceError, code: int, message: Seq<char>) -> bool {
    &&& e.exception == ExceptionCode::ServiceSpecific
    &&& e.service_specific_error == code
    &&& e.message@ == message
}

/// A binder exception with a message.
pub fn new_binder_exception(exception: ExceptionCode, message: String) -> (e: ServiceError)
    ensures
        is_exception(e, exception, message@),
{
    ServiceError { exception, service_specific_error: 0, message }
}

/// A service-specific binder error with a message.
pub fn new_binder_service_specific_error(code: i32, message: String) -> (e: ServiceError)
    ensures
        is_service_specific(e, code as int, message@),
{
    ServiceError { exception: ExceptionCode::ServiceSpecific, service_specific_error: code, message }
}

} // verus!
