use vstd::prelude::*;
use vstd::string::StringExecFns;

verus! {

/// Failures this service reports to its callers.
///
/// Validation failures (`InvalidAddress`, `InvalidFinishStatus`) are raised
/// before any device interaction; `UnrecognizedRequestType` is a protocol
/// failure reported by the finish loop; `OutOfBounds` and `FlushFailed` are
/// raised by the raw state accessor.
#[derive(Clone, Copy, Debug, PartialEq, Eq, Structural)]
pub enum ServiceError {
    InvalidAddress,
    InvalidFinishStatus,
    UnrecognizedRequestType,
    OutOfBounds,
    FlushFailed,
}

impl ServiceError {
    /// The text that accompanies this failure in an HTTP response body.
    pub fn description(&self) -> (r: String)
        ensures
            *self == ServiceError::InvalidAddress ==> r@ == "address not valid"@,
            *self == ServiceError::InvalidFinishStatus ==> r@ == "status must be 'accept' or 'reject'"@,
            *self == ServiceError::UnrecognizedRequestType ==> r@ == "unrecognized request type"@,
            *self == ServiceError::OutOfBounds ==> r@ == "Offset and size exceed memory bounds"@,
            *self == ServiceError::FlushFailed ==> r@ == "Failed to flush the changes"@,
    {
        match self {
            ServiceError::InvalidAddress => "address not valid".to_owned(),
            ServiceError::InvalidFinishStatus => "status must be 'accept' or 'reject'".to_owned(),
            ServiceError::UnrecognizedRequestType => "unrecognized request type".to_owned(),
            ServiceError::OutOfBounds => "Offset and size exceed memory bounds".to_owned(),
            ServiceError::FlushFailed => "Failed to flush the changes".to_owned(),
        }
    }
}

/// The response text for a failed device write: the action that failed,
/// with the kernel's error text embedded.
pub fn device_error_message(action: &str, detail: &str) -> (r: String)
    ensures
        r@ == action@ + ", error details: '"@ + detail@ + "'"@,
{
    let mut message: String = action.to_owned();
    message.append(", error details: '");
    message.append(detail);
    message.append("'");
    message
}

/// The response text for a failed step of the finish loop, with the
/// kernel's error text embedded.
pub fn transaction_error_message(action: &str, detail: &str) -> (r: String)
    ensures
        r@ == action@ + ": `"@ + detail@ + "`"@,
{
    let mut message: String = action.to_owned();
    message.append(": `");
    message.append(detail);
    message.append("`");
    message
}

} // verus!
