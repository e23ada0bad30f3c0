use vstd::prelude::*;

verus! {

/// Why one item pulled from the guest sequence could not become a payload.
#[derive(Debug)]
pub enum ResponseProcessingError {
    /// The guest raised an exception while producing this item.
    PythonException(String),
    /// The guest produced an item whose shape does not fit the response type.
    DeserializeError(String),
    /// The conversion work could not be scheduled on, or joined from, its worker.
    OffloadError(String),
}

/// Fatal errors end the request's stream; a guest exception does not.
pub open spec fn is_fatal(e: ResponseProcessingError) -> bool {
    !(e is PythonException)
}

/// The short description of an error.
pub open spec fn describe(e: ResponseProcessingError) -> Seq<char> {
    match e {
        ResponseProcessingError::PythonException(d) => "python exception: "@ + d@,
        ResponseProcessingError::DeserializeError(d) => "deserialize error: "@ + d@,
        ResponseProcessingError::OffloadError(d) => "gil offload error: "@ + d@,
    }
}

/// The message that an error-tagged response carries for an error.
pub open spec fn stream_message(e: ResponseProcessingError) -> Seq<char> {
    match e {
        ResponseProcessingError::PythonException(d) =>
            "a python exception was caught while processing the async generator: "@ + d@,
        ResponseProcessingError::DeserializeError(d) =>
            "critical error: invalid response object from python async generator; application-logic-mismatch: "@
                + d@,
        ResponseProcessingError::OffloadError(d) =>
            "critical error: failed to offload the python async generator to a new thread: "@
                + d@,
    }
}

impl ResponseProcessingError {
    pub fn is_fatal(&self) -> (r: bool)
        ensures
            r == is_fatal(*self),
    {
        match self {
            ResponseProcessingError::PythonException(_) => false,
            ResponseProcessingError::DeserializeError(_) => true,
            ResponseProcessingError::OffloadError(_) => true,
        }
    }

    /// The short description, as `Display` would render it.
    pub fn to_message(&self) -> (r: String)
        ensures
            r@ == describe(*self),
    {
        match self {
            ResponseProcessingError::PythonException(d) => String::from_str(
                "python exception: ",
            ).concat(d.as_str()),
            ResponseProcessingError::DeserializeError(d) => String::from_str(
                "deserialize error: ",
            ).concat(d.as_str()),
            ResponseProcessingError::OffloadError(d) => String::from_str(
                "gil offload error: ",
            ).concat(d.as_str()),
        }
    }

    /// The message put on the response stream for this error.
    pub fn stream_message(&self) -> (r: String)
        ensures
            r@ == stream_message(*self),
    {
        match self {
            ResponseProcessingError::PythonException(d) => String::from_str(
                "a python exception was caught while processing the async generator: ",
            ).concat(d.as_str()),
            ResponseProcessingError::DeserializeError(d) => String::from_str(
                "critical error: invalid response object from python async generator; application-logic-mismatch: ",
            ).concat(d.as_str()),
            ResponseProcessingError::OffloadError(d) => String::from_str(
                "critical error: failed to offload the python async generator to a new thread: ",
            ).concat(d.as_str()),
        }
    }
}

} // verus!
