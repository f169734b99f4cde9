//! The failures that the library reports.
use vstd::prelude::*;

verus! {

/// `std::io::Error`, carried through by the verifier as an opaque value.
#[verifier::external_type_specification]
#[verifier::external_body]
pub struct ExIoError(std::io::Error);

/// The `std::io::Error` of kind `Other` that carries the given message.
pub uninterp spec fn io_error_other(message: Seq<char>) -> std::io::Error;

/// `std::io::Error::new` with the kind `ErrorKind::Other`: the error made
/// from a message depends on the message alone.
#[verifier::external_body]
fn new_io_error(message: String) -> (err: std::io::Error)
    ensures
        err == io_error_other(message@),
{
    std::io::Error::new(std::io::ErrorKind::Other, message)
}

/// Why the renderer process could not be started.
#[derive(Debug, Clone)]
pub struct NodeJsError {
    cause: String,
    description: String,
}

impl NodeJsError {
    /// The short cause, as text.
    pub closed spec fn cause(&self) -> Seq<char> {
        self.cause@
    }

    /// The longer description, as text.
    pub closed spec fn description(&self) -> Seq<char> {
        self.description@
    }

    /// What `to_string` renders.
    pub open spec fn rendering(&self) -> Seq<char> {
        "cause: "@ + self.cause() + ";\ndescription: "@ + self.description()
    }

    pub fn new(cause: String, description: String) -> (err: Self)
        ensures
            err.cause() == cause@,
            err.description() == description@,
    {
        NodeJsError { cause, description }
    }

    pub fn get_cause(&self) -> (cause: String)
        ensures
            cause@ == self.cause(),
    {
        self.cause.clone()
    }

    pub fn get_description(&self) -> (description: String)
        ensures
            description@ == self.description(),
    {
        self.description.clone()
    }

    /// The error as one text: the cause, then the description.
    pub fn to_string(&self) -> (text: String)
        ensures
            text@ == self.rendering(),
    {
        let mut text = String::from_str("cause: ");
        text.append(self.cause.as_str());
        text.append(";\ndescription: ");
        text.append(self.description.as_str());
        text
    }
}

/// A failure of the protocol engine.
#[derive(Debug)]
pub enum InertiaError {
    /// A value cannot be represented in the wire format.
    SerializationError(String),
    /// A request header is malformed.
    HeaderError(String),
    /// The renderer could not be reached or answered badly.
    SsrError(String),
    /// The root template could not be rendered.
    RenderError(String),
    /// The renderer process could not be started.
    NodeJsError(NodeJsError),
}

impl InertiaError {
    /// The cause of the failure, as text.
    pub open spec fn cause(&self) -> Seq<char> {
        match self {
            InertiaError::HeaderError(err) => err@,
            InertiaError::NodeJsError(node_err) => node_err.cause() + " ("@ + node_err.description()
                + ")"@,
            InertiaError::SerializationError(err) => err@,
            InertiaError::SsrError(err) => err@,
            InertiaError::RenderError(err) => err@,
        }
    }

    pub fn get_cause(&self) -> (cause: String)
        ensures
            cause@ == self.cause(),
    {
        match self {
            InertiaError::HeaderError(err) => err.clone(),
            InertiaError::NodeJsError(node_err) => {
                let mut cause = node_err.get_cause();
                cause.append(" (");
                cause.append(node_err.get_description().as_str());
                cause.append(")");
                cause
            },
            InertiaError::SerializationError(err) => err.clone(),
            InertiaError::SsrError(err) => err.clone(),
            InertiaError::RenderError(err) => err.clone(),
        }
    }

    /// The error as one text, headed by the library's name.
    pub fn to_string(&self) -> (text: String)
        ensures
            text@ == "Inertia Error: "@ + self.cause(),
    {
        let mut text = String::from_str("Inertia Error: ");
        text.append(self.get_cause().as_str());
        text
    }

    /// The I/O error of kind `Other` whose message is the cause.
    pub fn to_io_error(self) -> (err: std::io::Error)
        ensures
            err == io_error_other(self.cause()),
    {
        new_io_error(self.get_cause())
    }
}

} // verus!
