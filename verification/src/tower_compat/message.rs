//! Requests and responses, each a head and a body.
//!
//! The adapter never looks inside a head or a body, so both are type
//! parameters: the server hands in its own head and body types and gets the
//! very same values back inside the converted message.

use vstd::prelude::*;

verus! {

/// An incoming message: everything but the body in `head`, the body in `body`.
pub struct Request<H, B> {
    pub head: H,
    pub body: B,
}

/// An outgoing message: everything but the body in `head`, the body in `body`.
pub struct Response<H, B> {
    pub head: H,
    pub body: B,
}

impl<H, B> Request<H, B> {
    /// Puts a request together from its head and its body.
    pub fn from_parts(head: H, body: B) -> (req: Self)
        ensures
            req.head == head,
            req.body == body,
    {
        Request { head, body }
    }

    /// Takes a request apart into its head and its body.
    pub fn into_parts(self) -> (parts: (H, B))
        ensures
            parts.0 == self.head,
            parts.1 == self.body,
    {
        (self.head, self.body)
    }
}

impl<H, B> Response<H, B> {
    /// Puts a response together from its head and its body.
    pub fn from_parts(head: H, body: B) -> (res: Self)
        ensures
            res.head == head,
            res.body == body,
    {
        Response { head, body }
    }

    /// Takes a response apart into its head and its body.
    pub fn into_parts(self) -> (parts: (H, B))
        ensures
            parts.0 == self.head,
            parts.1 == self.body,
    {
        (self.head, self.body)
    }
}

/// The head of a response as plain values: the status and the header lines
/// in the order in which they were added.
#[derive(Debug)]
pub struct ResponseHead {
    pub status: u16,
    pub headers: Vec<(String, String)>,
}

/// Header lines as plain values.
pub open spec fn header_views(headers: Seq<(String, String)>) -> Seq<(Seq<char>, Seq<char>)> {
    Seq::new(headers.len(), |i: int| (headers[i].0@, headers[i].1@))
}

impl ResponseHead {
    /// A head with the given status and no header lines.
    pub fn new(status: u16) -> (head: Self)
        ensures
            head.status == status,
            header_views(head.headers@) == Seq::<(Seq<char>, Seq<char>)>::empty(),
    {
        let head = ResponseHead { status, headers: Vec::new() };
        head
    }

    /// Adds a header line behind those already there, whatever their names.
    pub fn append(&mut self, name: &str, value: &str)
        ensures
            final(self).status == old(self).status,
            header_views(final(self).headers@) == header_views(old(self).headers@).push(
                (name@, value@),
            ),
    {
        self.headers.push((String::from_str(name), String::from_str(value)));
        assert(header_views(self.headers@) =~= header_views(old(self).headers@).push(
            (name@, value@),
        ));
    }
}

} // verus!
