//! The execution gateway: a ticket becomes query text, and the engine's
//! answer to that text becomes a result or a failure of the call.
use vstd::prelude::*;
use vstd::utf8::*;
use crate::registry::Javelin;
use crate::service::ServiceError;
use crate::text::utf8_text;

verus! {

impl<S> Javelin<S> {
    /// The query a fetch runs: the ticket's bytes read as UTF-8 text, handed
    /// on verbatim. A ticket that is not valid UTF-8 is refused as malformed
    /// before any engine sees it.
    pub fn do_get(&self, ticket: &[u8]) -> (r: Result<String, ServiceError>)
        ensures
            valid_utf8(ticket@) ==> (r matches Ok(q) && q@ == decode_utf8(ticket@)),
            !valid_utf8(ticket@) ==> r matches Err(ServiceError::MalformedTicket(_)),
    {
        match utf8_text(ticket) {
            Ok(q) => Ok(q),
            Err(m) => Err(ServiceError::MalformedTicket(m)),
        }
    }
}

/// What the engine made of the query text: its result on success; its message
/// as an `EngineRejected` failure otherwise.
pub fn accept_plan<P>(planned: Result<P, String>) -> (r: Result<P, ServiceError>)
    ensures
        match planned {
            Ok(p) => r == Ok::<P, ServiceError>(p),
            Err(m) => r == Err::<P, ServiceError>(ServiceError::EngineRejected(m)),
        },
{
    match planned {
        Ok(p) => Ok(p),
        Err(m) => Err(ServiceError::EngineRejected(m)),
    }
}

} // verus!
