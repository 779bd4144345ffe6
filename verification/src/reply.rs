//! The replies that the service gives, as plain values.

use vstd::prelude::*;

verus! {

/// Status of a reply that hands over the requested content.
pub const OK: u16 = 200;

/// Status of a redirect.
pub const FOUND: u16 = 302;

/// Status of a reply to a request that cannot be understood.
pub const BAD_REQUEST: u16 = 400;

/// Status of a reply to a caller that may not ask.
pub const FORBIDDEN: u16 = 403;

/// A reply: its status, where it redirects to, if anywhere, and its body.
#[derive(Debug)]
pub struct Reply {
    pub status: u16,
    pub location: Option<String>,
    pub body: String,
}

impl Reply {
    /// The reply is a redirect to `target`, without a body.
    pub open spec fn redirects_to(&self, target: Seq<char>) -> bool {
        &&& self.status == FOUND
        &&& self.location matches Some(location) && location@ == target
        &&& self.body@ == Seq::<char>::empty()
    }

    /// The reply has the status and the body given, and redirects nowhere.
    pub open spec fn says(&self, status: u16, body: Seq<char>) -> bool {
        &&& self.status == status
        &&& self.location is None
        &&& self.body@ == body
    }

    /// A redirect to `target`.
    pub fn found(target: String) -> (reply: Reply)
        ensures
            reply.redirects_to(target@),
    {
        Reply { status: FOUND, location: Some(target), body: String::new() }
    }

    /// A reply with a status and a body.
    pub fn plain(status: u16, body: String) -> (reply: Reply)
        ensures
            reply.says(status, body@),
    {
        Reply { status, location: None, body }
    }
}

} // verus!
