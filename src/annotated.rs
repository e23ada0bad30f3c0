use vstd::prelude::*;

verus! {

/// One unit of a response stream: either a converted payload or an error
/// message describing why no payload could be produced.
#[derive(Debug)]
pub enum Annotated<R> {
    Data(R),
    Error(String),
}

impl<R> Annotated<R> {
    /// A payload-carrying response.
    pub fn from_data(data: R) -> (r: Self)
        ensures
            r == Annotated::Data(data),
    {
        Annotated::Data(data)
    }

    /// An error-tagged response carrying `msg`.
    pub fn from_error(msg: String) -> (r: Self)
        ensures
            r matches Annotated::Error(m) && m@ == msg@,
    {
        Annotated::Error(msg)
    }

    pub fn is_error(&self) -> (r: bool)
        ensures
            r == (self is Error),
    {
        match self {
            Annotated::Data(_) => false,
            Annotated::Error(_) => true,
        }
    }

    /// The payload, if this response carries one.
    pub fn data(&self) -> (r: Option<&R>)
        ensures
            match self {
                Annotated::Data(d) => r == Some(d),
                Annotated::Error(_) => r is None,
            },
    {
        match self {
            Annotated::Data(d) => Some(d),
            Annotated::Error(_) => None,
        }
    }

    /// The error message, if this response is error-tagged.
    pub fn error_message(&self) -> (r: Option<&str>)
        ensures
            match self {
                Annotated::Data(_) => r is None,
                Annotated::Error(m) => r matches Some(s) && s@ == m@,
            },
    {
        match self {
            Annotated::Data(_) => None,
            Annotated::Error(m) => Some(m.as_str()),
        }
    }
}

} // verus!
