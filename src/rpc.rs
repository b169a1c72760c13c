use vstd::prelude::*;
use vstd::string::StringExecFns;

verus! {

/// A method known at the call site: its name and a numeric tag. Only the
/// name travels on this transport.
#[derive(Clone, Copy, Debug)]
pub struct MethodId {
    pub name: &'static str,
    pub num: u32,
}

/// A received method, identified by its name or by its numeric tag.
#[derive(Clone, Debug, PartialEq, Eq)]
pub enum PartialMethodId {
    Name(String),
    Num(u32),
}

/// The closed set of error kinds of the framework.
#[derive(Clone, Copy, Debug, PartialEq, Eq, Structural)]
pub enum RPCErrorKind {
    SerializationError,
    UnknownMethod,
    TransportError,
    TransportEOF,
    Other,
}

/// An error: its kind, a human readable message and, where there is one, the
/// rendering of the underlying cause.
#[derive(Clone, Debug, PartialEq, Eq)]
pub struct RPCError {
    pub kind: RPCErrorKind,
    pub msg: String,
    pub cause: Option<String>,
}

/// How reading a JSON value from a byte stream failed.
#[derive(Clone, Copy, Debug, PartialEq, Eq, Structural)]
pub enum ReadFailure {
    /// The byte source itself failed.
    Io,
    /// The bytes are not valid JSON.
    Syntax,
    /// The JSON does not fit the expected type.
    Data,
    /// The byte source ended before the value was complete.
    Eof,
}

/// Message of an error raised by the value codec.
pub open spec fn codec_msg() -> Seq<char> {
    "json serialization or deserialization failed"@
}

/// Message of an error raised when the channel cannot be flushed.
pub open spec fn flush_msg() -> Seq<char> {
    "cannot flush underlying channel"@
}

/// Message of a clean end of stream before a request.
pub open spec fn eof_msg() -> Seq<char> {
    "EOF during json deserialization"@
}

impl RPCError {
    /// An error of `kind` without an underlying cause.
    pub fn new(kind: RPCErrorKind, msg: &str) -> (r: RPCError)
        ensures
            r.kind == kind,
            r.msg@ == msg@,
            r.cause is None,
    {
        RPCError { kind, msg: msg.to_owned(), cause: None }
    }

    /// An error of `kind` that carries the rendering of its cause.
    pub fn with_cause(kind: RPCErrorKind, msg: &str, cause: String) -> (r: RPCError)
        ensures
            r.kind == kind,
            r.msg@ == msg@,
            r.cause == Some(cause),
    {
        RPCError { kind, msg: msg.to_owned(), cause: Some(cause) }
    }

    /// The message together with the cause, if any.
    pub fn describe(&self) -> (r: String)
        ensures
            self.cause is None ==> r@ == self.msg@,
            self.cause is Some ==> r@ == self.msg@ + ": "@ + self.cause->0@,
    {
        match &self.cause {
            None => self.msg.clone(),
            Some(c) => {
                let s = self.msg.clone().concat(": ");
                s.concat(c.as_str())
            },
        }
    }
}

/// A failure of the value codec, as a serialization error that keeps the
/// codec's own report as its cause.
pub fn convert_error(cause: String) -> (r: RPCError)
    ensures
        r.kind == RPCErrorKind::SerializationError,
        r.msg@ == codec_msg(),
        r.cause == Some(cause),
{
    proof {
        reveal_strlit("json serialization or deserialization failed");
    }
    RPCError::with_cause(
        RPCErrorKind::SerializationError,
        "json serialization or deserialization failed",
        cause,
    )
}

/// A failure to write or flush the channel, as a serialization error that
/// keeps the channel's report as its cause.
pub fn flush_error(cause: String) -> (r: RPCError)
    ensures
        r.kind == RPCErrorKind::SerializationError,
        r.msg@ == flush_msg(),
        r.cause == Some(cause),
{
    RPCError::with_cause(RPCErrorKind::SerializationError, "cannot flush underlying channel", cause)
}

} // verus!
