//! What travels on the message bus of a node.
//!
//! The harness passes these values on and never looks inside them.

use vstd::prelude::*;

verus! {

/// A process on a node: its name, its package and the package's publisher.
#[derive(Debug, Clone, PartialEq, Eq)]
pub struct ProcessId {
    pub process_name: String,
    pub package_name: String,
    pub publisher_node: String,
}

/// A process on a given node.
#[derive(Debug, Clone, PartialEq, Eq)]
pub struct Address {
    pub node: String,
    pub process: ProcessId,
}

/// A request from one process to another.
#[derive(Debug, Clone, PartialEq, Eq)]
pub struct Request {
    pub inherit: bool,
    /// Seconds within which a response is expected, if one is.
    pub expects_response: Option<u64>,
    pub ipc: Vec<u8>,
    pub metadata: Option<String>,
}

/// A response to a request.
#[derive(Debug, Clone, PartialEq, Eq)]
pub struct Response {
    pub inherit: bool,
    pub ipc: Vec<u8>,
    pub metadata: Option<String>,
}

/// The message that an envelope carries.
#[derive(Debug, Clone, PartialEq, Eq)]
pub enum Message {
    Request(Request),
    /// A response, with the context that its request had saved.
    Response(Response, Option<Vec<u8>>),
}

/// Bytes that accompany a message.
#[derive(Debug, Clone, PartialEq, Eq)]
pub struct Payload {
    pub mime: Option<String>,
    pub bytes: Vec<u8>,
}

/// A capability with its issuer's signature.
#[derive(Debug, Clone, PartialEq, Eq)]
pub struct SignedCapability {
    pub issuer: Address,
    pub params: String,
    pub signature: Vec<u8>,
}

} // verus!
