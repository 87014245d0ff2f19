//! The request that opens a stream.
use std::sync::Arc;
use vstd::prelude::*;

use crate::schema::{Request, Response};

verus! {

/// Which way the messages of a stream go, seen from the endpoint.
#[derive(Debug, Clone, Copy, PartialEq, Eq, Structural)]
pub enum StreamDirection {
    /// Both ways.
    InOut,
    /// From the peer to the endpoint, with one response at the end.
    In,
    /// From the endpoint to the peer.
    Out,
}

/// What an endpoint takes and answers.
#[derive(Debug)]
pub struct Endpoint<B> {
    /// The requests that it takes. A stream goes by the first.
    pub request: Vec<Arc<Request<B>>>,
    /// What it answers.
    pub response: Arc<Response<B>>,
}

/// A request that opens a stream.
#[derive(Debug)]
pub struct StreamRequestData<B> {
    /// The endpoint that it is for.
    pub endpoint: Arc<Endpoint<B>>,
    /// Which way the messages go.
    pub direction: StreamDirection,
}

/// What a request is.
#[derive(Debug)]
pub enum RequestData<B> {
    /// One that opens a stream.
    Stream(StreamRequestData<B>),
    /// Any other.
    Other,
}

} // verus!
