//! What the HTTP handlers answer, as status codes and bodies.
use vstd::prelude::*;

use crate::error::OperationError;
use crate::validation::TextLengthViolation;

verus! {

/// The status of a response to a request that created a record.
pub const STATUS_CREATED: u16 = 201;

/// The status of a response to a request whose body was refused.
pub const STATUS_BAD_REQUEST: u16 = 400;

/// The status of a response to a request that the repository failed.
pub const STATUS_INTERNAL_SERVER_ERROR: u16 = 500;

/// The answer to a request that created a record: `201` with the record, or
/// `500` whatever the repository's failure was.
pub fn created_response<T>(result: Result<T, OperationError>) -> (response: Result<(u16, T), u16>)
    ensures
        match result {
            Ok(record) => response == Ok::<(u16, T), u16>((STATUS_CREATED, record)),
            Err(_) => response == Err::<(u16, T), u16>(STATUS_INTERNAL_SERVER_ERROR),
        },
{
    match result {
        Ok(record) => Ok((STATUS_CREATED, record)),
        Err(_) => Err(STATUS_INTERNAL_SERVER_ERROR),
    }
}

/// The answer to a body that failed validation: `400` with the rule's message.
pub fn validation_rejection(violation: TextLengthViolation) -> (response: (u16, &'static str))
    ensures
        response.0 == STATUS_BAD_REQUEST,
        violation == TextLengthViolation::Empty ==> response.1@ == "Can not be empty"@,
        violation == TextLengthViolation::TooLong ==> response.1@ == "Over text length"@,
{
    (STATUS_BAD_REQUEST, violation.message())
}

} // verus!
