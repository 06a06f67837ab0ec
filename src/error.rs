use vstd::prelude::*;

verus! {

/// Why an operation on a requester record was refused.
#[derive(Clone, Copy, Debug, PartialEq, Eq, Structural)]
pub enum ErrorCode {
    /// The caller is not the identity that the operation requires.
    Unauthorized,
    /// A fulfilment came with no request outstanding.
    AlreadyCompleted,
    /// A request came while another one is outstanding.
    InflightRequest,
    /// The oracle named by the request is not the one bound to the record.
    WrongOracle,
    /// Control of the record was to change while a request is outstanding.
    RequesterLocked,
}

} // verus!
