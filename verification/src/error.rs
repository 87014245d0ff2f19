//! What can go wrong on a stream, and how it is told.
use std::string::FromUtf8Error;
use vstd::prelude::*;

verus! {

/// A message that a channel refused because its receiving end is closed.
#[derive(Debug)]
pub struct ChannelClosed<T>(pub T);

/// The class of an error as the caller of an endpoint sees it.
#[derive(Debug, Clone, Copy, PartialEq, Eq, Structural)]
pub enum ErrCode {
    /// A fault on this side.
    Internal,
    /// A fault in what the peer sent.
    InvalidArgument,
}

/// A fault on this side that keeps a stream from working.
#[derive(Debug, Clone, Copy, PartialEq, Eq, Structural)]
pub enum Cause {
    /// The request is not one that opens a stream.
    WrongRequestData,
    /// The endpoint describes no request.
    NoRequestSchema,
    /// The connection of the request was taken before.
    AlreadyUpgraded,
    /// The endpoint describes no body for what it sends.
    EmptyOutgoingBody,
}

impl Cause {
    /// The text that describes the cause.
    pub open spec fn text(self) -> Seq<char> {
        match self {
            Cause::WrongRequestData => "wrong request data type for stream"@,
            Cause::NoRequestSchema => "no request schema"@,
            Cause::AlreadyUpgraded => "websocket already upgraded"@,
            Cause::EmptyOutgoingBody => "outgoing message body can't be empty"@,
        }
    }

    /// Describes the cause in words.
    pub fn message(&self) -> (message: &'static str)
        ensures
            message@ == self.text(),
    {
        match self {
            Cause::WrongRequestData => "wrong request data type for stream",
            Cause::NoRequestSchema => "no request schema",
            Cause::AlreadyUpgraded => "websocket already upgraded",
            Cause::EmptyOutgoingBody => "outgoing message body can't be empty",
        }
    }
}

/// A fault in a message of the peer.
#[derive(Debug, Clone, Copy, PartialEq, Eq, Structural)]
pub enum Fault {
    /// The endpoint takes no typed body, so no message can be read.
    BodyType,
    /// The message holds no payload.
    MissingPayload,
}

impl Fault {
    /// The text that describes the fault.
    pub open spec fn text(self) -> Seq<char> {
        match self {
            Fault::BodyType => "invalid streaming body type in schema"@,
            Fault::MissingPayload => "missing payload"@,
        }
    }

    /// Describes the fault in words.
    pub fn message(&self) -> (message: &'static str)
        ensures
            message@ == self.text(),
    {
        match self {
            Fault::BodyType => "invalid streaming body type in schema",
            Fault::MissingPayload => "missing payload",
        }
    }
}

/// An error of a stream, where `E` is the error of the schema that encodes and decodes bodies.
#[derive(Debug)]
pub enum Error<E> {
    /// A fault on this side.
    Internal(Cause),
    /// An encoded message is not text, which is a fault on this side too.
    InvalidUtf8(FromUtf8Error),
    /// A fault in what the peer sent.
    InvalidArgument(Fault),
    /// An error that the schema reported, handed on as it is.
    Schema(E),
}

/// A result with an error of a stream.
pub type APIResult<T, E> = Result<T, Error<E>>;

impl<E> Error<E> {
    /// The class of the error, or `None` where the schema's own error carries it.
    pub fn code(&self) -> (code: Option<ErrCode>)
        ensures
            code == match self {
                Error::Internal(_) | Error::InvalidUtf8(_) => Some(ErrCode::Internal),
                Error::InvalidArgument(_) => Some(ErrCode::InvalidArgument),
                Error::Schema(_) => None,
            },
    {
        match self {
            Error::Internal(_) | Error::InvalidUtf8(_) => Some(ErrCode::Internal),
            Error::InvalidArgument(_) => Some(ErrCode::InvalidArgument),
            Error::Schema(_) => None,
        }
    }
}

} // verus!
