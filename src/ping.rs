//! The ping round trip.

use vstd::prelude::*;

verus! {

/// A ping carrying an optional value.
pub struct PingRequest {
    pub value: Option<String>,
}

/// The answer to a ping.
pub struct PingResponse {
    pub value: Option<String>,
}

/// Answers a ping with the value it carried.
pub fn ping(payload: PingRequest) -> (r: PingResponse)
    ensures
        r.value == payload.value,
{
    PingResponse { value: payload.value }
}

} // verus!
