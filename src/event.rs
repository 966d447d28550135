use vstd::prelude::*;

verus! {

/// A request for one event: the key that selects the handling module, the
/// identifier that configures the handler, and an opaque payload.
pub struct EventRequest {
    pub event: String,
    pub id: String,
    pub payload: Vec<u8>,
}

impl EventRequest {
    pub fn new(event: String, id: String, payload: Vec<u8>) -> (r: Self)
        ensures
            r.event == event,
            r.id == id,
            r.payload == payload,
    {
        EventRequest { event, id, payload }
    }

    pub fn get_event(&self) -> (r: &String)
        ensures
            *r == self.event,
    {
        &self.event
    }

    pub fn get_id(&self) -> (r: &String)
        ensures
            *r == self.id,
    {
        &self.id
    }
}

/// The outcome of handling one request: a payload or an error message.
#[derive(Debug, Clone, PartialEq, Eq)]
pub enum EventResponse {
    Success(Vec<u8>),
    Error(String),
}

impl EventResponse {
    /// A copy of the response, so that one value can be both returned and
    /// handed to a callback.
    pub fn duplicate(&self) -> (r: Self)
        ensures
            r.view_eq(self),
    {
        match self {
            EventResponse::Success(p) => {
                let q = p.clone();
                assert(q@ =~= p@);
                EventResponse::Success(q)
            },
            EventResponse::Error(m) => EventResponse::Error(m.clone()),
        }
    }

    /// Two responses of the same variant with the same contents.
    pub open spec fn view_eq(&self, other: &Self) -> bool {
        match (*self, *other) {
            (EventResponse::Success(a), EventResponse::Success(b)) => a@ == b@,
            (EventResponse::Error(a), EventResponse::Error(b)) => a@ == b@,
            _ => false,
        }
    }

    pub fn is_success(&self) -> (r: bool)
        ensures
            r == (self is Success),
    {
        match self {
            EventResponse::Success(_) => true,
            EventResponse::Error(_) => false,
        }
    }
}

/// A failure while building or running a handler.
#[derive(Debug, Clone, PartialEq, Eq)]
pub struct SystemError {
    pub msg: String,
}

impl SystemError {
    pub fn new(msg: String) -> (r: Self)
        ensures
            r.msg == msg,
    {
        SystemError { msg }
    }

    /// The response that stands for this error.
    pub fn into_response(self) -> (r: EventResponse)
        ensures
            r == error_response(self),
    {
        EventResponse::Error(self.msg)
    }
}

/// Every error becomes an error response that carries its message.
pub open spec fn error_response(e: SystemError) -> EventResponse {
    EventResponse::Error(e.msg)
}

/// What a handler's result amounts to: its response, or its error turned
/// into a response.
pub open spec fn response_of(result: Result<EventResponse, SystemError>) -> EventResponse {
    match result {
        Ok(r) => r,
        Err(e) => error_response(e),
    }
}

/// Handles requests for one event key.
pub trait Handler {
    /// `r` is an answer this handler may give to `request`.
    spec fn answers(&self, request: EventRequest, r: Result<EventResponse, SystemError>) -> bool;

    fn call(&self, request: EventRequest) -> (r: Result<EventResponse, SystemError>)
        ensures
            self.answers(request, r),
    ;
}

/// Builds a handler from a request's identifier; what a module registers.
pub trait HandlerFactory {
    type Output: Handler;

    /// `r` is an outcome this factory may give for the identifier `id`.
    spec fn builds(&self, id: String, r: Result<Self::Output, SystemError>) -> bool;

    fn new_handler(&self, id: String) -> (r: Result<Self::Output, SystemError>)
        ensures
            self.builds(id, r),
    ;
}

} // verus!
