use vstd::prelude::*;
use crate::errors::ServiceError;

verus! {

/// The two request kinds a rollup device can deliver.
#[derive(Clone, Copy, Debug, PartialEq, Eq, Structural)]
pub enum RequestKind {
    Advance,
    Inspect,
}

/// Chain context accompanying an advance request; immutable once received.
pub struct AdvanceMetadata {
    pub msg_sender: String,
    pub epoch_index: u64,
    pub input_index: u64,
    pub block_number: u64,
    pub timestamp: u64,
}

/// A state-changing input delivered from the chain layer to the DApp.
pub struct AdvanceRequest {
    pub metadata: AdvanceMetadata,
    pub payload: Vec<u8>,
}

/// A read-only query delivered to the DApp, not persisted on-chain.
pub struct InspectRequest {
    pub payload: Vec<u8>,
}

/// The request the device produced, as consumed by the DApp: exactly two
/// variants, matched exhaustively wherever it is translated.
pub enum RollupRequest {
    Advance(AdvanceRequest),
    Inspect(InspectRequest),
}

/// Maps the device's discriminator to a request kind: 0 is an advance,
/// 1 is an inspect, and every other value is a protocol failure that is
/// non-fatal to the channel.
pub fn classify_request(discriminator: u64) -> (r: Result<RequestKind, ServiceError>)
    ensures
        discriminator == 0 ==> r == Ok::<RequestKind, ServiceError>(RequestKind::Advance),
        discriminator == 1 ==> r == Ok::<RequestKind, ServiceError>(RequestKind::Inspect),
        discriminator > 1 ==> r == Err::<RequestKind, ServiceError>(ServiceError::UnrecognizedRequestType),
{
    if discriminator == 0 {
        Ok(RequestKind::Advance)
    } else if discriminator == 1 {
        Ok(RequestKind::Inspect)
    } else {
        Err(ServiceError::UnrecognizedRequestType)
    }
}

impl RollupRequest {
    /// The kind of this request.
    pub fn kind(&self) -> (k: RequestKind)
        ensures
            k == RequestKind::Advance <==> self is Advance,
            k == RequestKind::Inspect <==> self is Inspect,
    {
        match self {
            RollupRequest::Advance(_) => RequestKind::Advance,
            RollupRequest::Inspect(_) => RequestKind::Inspect,
        }
    }

    /// The tag under which this request is published to the DApp.
    pub fn request_type_name(&self) -> (r: String)
        ensures
            self is Advance ==> r@ == "advance_state"@,
            self is Inspect ==> r@ == "inspect_state"@,
    {
        match self {
            RollupRequest::Advance(_) => "advance_state".to_owned(),
            RollupRequest::Inspect(_) => "inspect_state".to_owned(),
        }
    }
}

} // verus!
