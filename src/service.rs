//! The protocol's methods, the failures a call can end in, and the status
//! each failure is reported with.
use vstd::prelude::*;
use crate::registry::Javelin;

verus! {

/// The methods of the flight protocol.
#[derive(Debug, Clone, Copy, PartialEq, Eq, Structural)]
pub enum Method {
    Handshake,
    ListFlights,
    GetFlightInfo,
    PollFlightInfo,
    GetSchema,
    DoGet,
    DoPut,
    DoExchange,
    DoAction,
    ListActions,
}

/// The status classes a failed call is reported with.
#[derive(Debug, Clone, Copy, PartialEq, Eq, Structural)]
pub enum StatusCode {
    Internal,
    Unavailable,
    Unimplemented,
}

/// Why a call failed. Every failure is scoped to the one call it ends.
#[derive(Debug, PartialEq, Eq)]
pub enum ServiceError {
    /// The ticket is not valid UTF-8; carries the decoder's message.
    MalformedTicket(String),
    /// The engine refused to parse, plan or run the query; carries its message.
    EngineRejected(String),
    /// No table is registered.
    CatalogUnavailable,
    /// The schema of the named table could not be had.
    SchemaUnavailable(String),
    /// The result stream failed after it had started; carries the cause.
    StreamFailed(String),
    /// The method is not supported by this server.
    Unimplemented(Method),
}

impl Method {
    /// The method's name as written in messages.
    pub open spec fn spec_label(self) -> Seq<char> {
        match self {
            Method::Handshake => "handshake"@,
            Method::ListFlights => "list_flights"@,
            Method::GetFlightInfo => "get_flight_info"@,
            Method::PollFlightInfo => "poll_flight_info"@,
            Method::GetSchema => "get_schema"@,
            Method::DoGet => "do_get"@,
            Method::DoPut => "do_put"@,
            Method::DoExchange => "do_exchange"@,
            Method::DoAction => "do_action"@,
            Method::ListActions => "list_actions"@,
        }
    }

    /// The method's name as written in messages.
    pub fn label(&self) -> (r: &'static str)
        ensures
            r@ == self.spec_label(),
    {
        match self {
            Method::Handshake => "handshake",
            Method::ListFlights => "list_flights",
            Method::GetFlightInfo => "get_flight_info",
            Method::PollFlightInfo => "poll_flight_info",
            Method::GetSchema => "get_schema",
            Method::DoGet => "do_get",
            Method::DoPut => "do_put",
            Method::DoExchange => "do_exchange",
            Method::DoAction => "do_action",
            Method::ListActions => "list_actions",
        }
    }
}

impl ServiceError {
    /// The status class of a failure.
    pub open spec fn spec_code(&self) -> StatusCode {
        match self {
            ServiceError::CatalogUnavailable => StatusCode::Unavailable,
            ServiceError::Unimplemented(_) => StatusCode::Unimplemented,
            _ => StatusCode::Internal,
        }
    }

    /// The message a failure is reported with.
    pub open spec fn spec_message(&self) -> Seq<char> {
        match self {
            ServiceError::MalformedTicket(m) => m@,
            ServiceError::EngineRejected(m) => m@,
            ServiceError::CatalogUnavailable => "No tables available"@,
            ServiceError::SchemaUnavailable(t) => "Failed to get schema for table: "@ + t@,
            ServiceError::StreamFailed(m) => m@,
            ServiceError::Unimplemented(m) => "Implement "@ + m.spec_label(),
        }
    }

    /// The status class of a failure: an empty catalog is unavailable, an
    /// unsupported method unimplemented, anything else internal.
    pub fn code(&self) -> (r: StatusCode)
        ensures
            r == self.spec_code(),
    {
        match self {
            ServiceError::CatalogUnavailable => StatusCode::Unavailable,
            ServiceError::Unimplemented(_) => StatusCode::Unimplemented,
            _ => StatusCode::Internal,
        }
    }

    /// The message a failure is reported with.
    pub fn message(&self) -> (r: String)
        ensures
            r@ == self.spec_message(),
    {
        match self {
            ServiceError::MalformedTicket(m) => m.clone(),
            ServiceError::EngineRejected(m) => m.clone(),
            ServiceError::CatalogUnavailable => String::from_str("No tables available"),
            ServiceError::SchemaUnavailable(t) => {
                String::from_str("Failed to get schema for table: ").concat(t.as_str())
            },
            ServiceError::StreamFailed(m) => m.clone(),
            ServiceError::Unimplemented(m) => String::from_str("Implement ").concat(m.label()),
        }
    }
}

impl<S> Javelin<S> {
    /// Not supported (the bidirectional handshake): fails at once as unimplemented, with no effect.
    pub fn handshake(&self) -> (r: Result<(), ServiceError>)
        ensures
            r == Err::<(), ServiceError>(ServiceError::Unimplemented(Method::Handshake)),
    {
        Err(ServiceError::Unimplemented(Method::Handshake))
    }

    /// Not supported (flight information for one descriptor): fails at once as unimplemented, with no effect.
    pub fn get_flight_info(&self) -> (r: Result<(), ServiceError>)
        ensures
            r == Err::<(), ServiceError>(ServiceError::Unimplemented(Method::GetFlightInfo)),
    {
        Err(ServiceError::Unimplemented(Method::GetFlightInfo))
    }

    /// Not supported (polling a long-running query): fails at once as unimplemented, with no effect.
    pub fn poll_flight_info(&self) -> (r: Result<(), ServiceError>)
        ensures
            r == Err::<(), ServiceError>(ServiceError::Unimplemented(Method::PollFlightInfo)),
    {
        Err(ServiceError::Unimplemented(Method::PollFlightInfo))
    }

    /// Not supported (the schema for one descriptor): fails at once as unimplemented, with no effect.
    pub fn get_schema(&self) -> (r: Result<(), ServiceError>)
        ensures
            r == Err::<(), ServiceError>(ServiceError::Unimplemented(Method::GetSchema)),
    {
        Err(ServiceError::Unimplemented(Method::GetSchema))
    }

    /// Not supported (data ingestion): fails at once as unimplemented, with no effect.
    pub fn do_put(&self) -> (r: Result<(), ServiceError>)
        ensures
            r == Err::<(), ServiceError>(ServiceError::Unimplemented(Method::DoPut)),
    {
        Err(ServiceError::Unimplemented(Method::DoPut))
    }

    /// Not supported (the bidirectional exchange): fails at once as unimplemented, with no effect.
    pub fn do_exchange(&self) -> (r: Result<(), ServiceError>)
        ensures
            r == Err::<(), ServiceError>(ServiceError::Unimplemented(Method::DoExchange)),
    {
        Err(ServiceError::Unimplemented(Method::DoExchange))
    }

    /// Not supported (custom actions): fails at once as unimplemented, with no effect.
    pub fn do_action(&self) -> (r: Result<(), ServiceError>)
        ensures
            r == Err::<(), ServiceError>(ServiceError::Unimplemented(Method::DoAction)),
    {
        Err(ServiceError::Unimplemented(Method::DoAction))
    }

    /// Not supported (the listing of custom actions): fails at once as unimplemented, with no effect.
    pub fn list_actions(&self) -> (r: Result<(), ServiceError>)
        ensures
            r == Err::<(), ServiceError>(ServiceError::Unimplemented(Method::ListActions)),
    {
        Err(ServiceError::Unimplemented(Method::ListActions))
    }
}

} // verus!
