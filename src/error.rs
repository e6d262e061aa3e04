use vstd::prelude::*;

verus! {

/// Identifier of an object held by a registry.
pub type RMI_ID = u16;

/// The errors that a remote call can end in. Each variant keeps its own
/// detail, so that a failure reported by a server reaches the client with
/// its kind intact.
#[derive(Debug, Clone, PartialEq, Eq)]
pub enum RMIError {
    SerializationError(String),
    ServerError(String),
    TransportError(String),
    MethodNotFound(String),
    BadArguments(String),
    ObjectNotFound(RMI_ID),
    NameNotFound(String),
    EmptyRegistry(),
    IoError(String),
}

impl RMIError {
    /// A copy of the error, of the same kind and with the same detail.
    pub fn duplicate(&self) -> (r: RMIError)
        ensures
            r@ == self@,
    {
        match self {
            RMIError::SerializationError(s) => RMIError::SerializationError(s.clone()),
            RMIError::ServerError(s) => RMIError::ServerError(s.clone()),
            RMIError::TransportError(s) => RMIError::TransportError(s.clone()),
            RMIError::MethodNotFound(s) => RMIError::MethodNotFound(s.clone()),
            RMIError::BadArguments(s) => RMIError::BadArguments(s.clone()),
            RMIError::ObjectNotFound(id) => RMIError::ObjectNotFound(*id),
            RMIError::NameNotFound(s) => RMIError::NameNotFound(s.clone()),
            RMIError::EmptyRegistry() => RMIError::EmptyRegistry(),
            RMIError::IoError(s) => RMIError::IoError(s.clone()),
        }
    }
}

/// Outcome of a fallible operation of this library.
pub type RMIResult<T> = Result<T, RMIError>;

/// Mathematical model of an error: its kind and its detail.
pub enum ErrorView {
    Serialization(Seq<char>),
    Server(Seq<char>),
    Transport(Seq<char>),
    MethodNotFound(Seq<char>),
    BadArguments(Seq<char>),
    ObjectNotFound(RMI_ID),
    NameNotFound(Seq<char>),
    EmptyRegistry,
    Io(Seq<char>),
}

impl View for RMIError {
    type V = ErrorView;

    open spec fn view(&self) -> ErrorView {
        match self {
            RMIError::SerializationError(s) => ErrorView::Serialization(s@),
            RMIError::ServerError(s) => ErrorView::Server(s@),
            RMIError::TransportError(s) => ErrorView::Transport(s@),
            RMIError::MethodNotFound(s) => ErrorView::MethodNotFound(s@),
            RMIError::BadArguments(s) => ErrorView::BadArguments(s@),
            RMIError::ObjectNotFound(id) => ErrorView::ObjectNotFound(*id),
            RMIError::NameNotFound(s) => ErrorView::NameNotFound(s@),
            RMIError::EmptyRegistry() => ErrorView::EmptyRegistry,
            RMIError::IoError(s) => ErrorView::Io(s@),
        }
    }
}

/// Model of an outcome: the model of the value, or that of the error.
pub open spec fn result_view<T: View>(r: RMIResult<T>) -> Result<T::V, ErrorView> {
    match r {
        Ok(v) => Ok(v@),
        Err(e) => Err(e@),
    }
}

} // verus!
