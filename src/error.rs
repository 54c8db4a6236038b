use vstd::prelude::*;

verus! {

/// Every way a request through the relay can fail.
#[derive(Debug, Clone, PartialEq, Eq)]
pub enum ProxyError {
    /// The listening socket could not be bound; holds the system's message.
    ServerBind(String),
    InvalidSignature,
    MissingSignature,
    HmacComputation,
    /// The outbound call failed or timed out; holds the transport's message.
    ForwardRequest(String),
    ReadBody,
    InvalidHeader(String),
    ServerError(String),
    /// The event tag names no known event; holds the tag.
    UnsupportedEventType(String),
    /// The body did not decode into the event's shape; holds the path of
    /// fields down to where decoding failed, never a value from the body.
    MalformedPayload { path: String },
    /// The body decoded, but a field the event cannot do without is empty.
    IncompletePayload,
    PayloadTooLarge,
    InvalidJenkinsUrl,
    Configuration(String),
}

/// The HTTP status that answers each failure.
pub open spec fn status_of(e: ProxyError) -> u16 {
    match e {
        ProxyError::InvalidSignature | ProxyError::MissingSignature => 401,
        ProxyError::ForwardRequest(_) => 502,
        ProxyError::ReadBody
        | ProxyError::InvalidHeader(_)
        | ProxyError::UnsupportedEventType(_)
        | ProxyError::MalformedPayload { .. }
        | ProxyError::IncompletePayload
        | ProxyError::PayloadTooLarge => 400,
        _ => 500,
    }
}

impl ProxyError {
    /// The HTTP status code that the caller receives for this failure.
    pub fn status_code(&self) -> (r: u16)
        ensures
            r == status_of(*self),
    {
        match self {
            ProxyError::InvalidSignature | ProxyError::MissingSignature => 401,
            ProxyError::ForwardRequest(_) => 502,
            ProxyError::ReadBody
            | ProxyError::InvalidHeader(_)
            | ProxyError::UnsupportedEventType(_)
            | ProxyError::MalformedPayload { .. }
            | ProxyError::IncompletePayload
            | ProxyError::PayloadTooLarge => 400,
            _ => 500,
        }
    }
}

} // verus!
