//! The messages that the speech service sends over its connection.
use vstd::prelude::*;

verus! {

/// The identifier of a request, in its text form.
pub type RequestId = String;

/// The payload of a service message.
#[derive(Debug, Clone, PartialEq, Eq)]
pub enum Data {
    Text(Option<String>),
    Binary(Option<Vec<u8>>),
}

/// A message received from the speech service.
#[derive(Debug, Clone, PartialEq, Eq)]
pub struct Message {
    /// The request the message answers (`X-RequestId`).
    pub id: String,
    /// The kind of the message (`Path`).
    pub path: String,
    /// All headers of the message, in the order received.
    pub headers: Vec<(String, String)>,
    /// The payload.
    pub data: Data,
}

} // verus!
