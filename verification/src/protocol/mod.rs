//! Open Protocol messages, responses and their wire encoding.

pub mod field;
pub mod framing;
pub mod parser;
pub mod serializer;
pub mod text;

use vstd::prelude::*;

verus! {

/// A request received from the integrator, header fields decoded.
#[derive(Debug)]
pub struct Message {
    /// Total length announced in the header.
    pub length: u16,
    /// Message ID.
    pub mid: u16,
    /// Message revision.
    pub revision: u8,
    /// Data section after the 20-byte header.
    pub data: Vec<u8>,
}

/// The value of a [`Message`].
pub struct MessageView {
    pub length: u16,
    pub mid: u16,
    pub revision: u8,
    pub data: Seq<u8>,
}

impl View for Message {
    type V = MessageView;

    open spec fn view(&self) -> MessageView {
        MessageView {
            length: self.length,
            mid: self.mid,
            revision: self.revision,
            data: self.data@,
        }
    }
}

/// A message to send back to the integrator.
#[derive(Debug)]
pub struct Response {
    /// Message ID.
    pub mid: u16,
    /// Message revision.
    pub revision: u8,
    /// Data section.
    pub data: Vec<u8>,
}

/// A data section that knows its own wire encoding.
pub trait ResponseData {
    /// The bytes of the data section.
    spec fn wire(&self) -> Seq<u8>;

    /// When the data section can be encoded.
    spec fn encodable(&self) -> bool;

    /// Encodes the data section.
    fn serialize(&self) -> (r: Vec<u8>)
        requires
            self.encodable(),
        ensures
            r@ == self.wire(),
    ;
}

/// The value of a [`Response`].
pub struct ResponseView {
    pub mid: u16,
    pub revision: u8,
    pub data: Seq<u8>,
}

impl View for Response {
    type V = ResponseView;

    open spec fn view(&self) -> ResponseView {
        ResponseView { mid: self.mid, revision: self.revision, data: self.data@ }
    }
}

impl Response {
    /// A response with the given header fields and data section.
    pub fn new(mid: u16, revision: u8, data: Vec<u8>) -> (r: Self)
        ensures
            r.mid == mid,
            r.revision == revision,
            r.data@ == data@,
    {
        Response { mid, revision, data }
    }

    /// A copy of this response.
    pub fn duplicate(&self) -> (r: Self)
        ensures
            r@ == self@,
    {
        Response { mid: self.mid, revision: self.revision, data: self.data.clone() }
    }

    /// A response whose data section is the encoding of `data`.
    pub fn from_data<T: ResponseData>(mid: u16, revision: u8, data: T) -> (r: Self)
        requires
            data.encodable(),
        ensures
            r.mid == mid,
            r.revision == revision,
            r.data@ == data.wire(),
    {
        Response { mid, revision, data: data.serialize() }
    }
}

} // verus!
