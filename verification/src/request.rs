//! The inbound request as middleware sees it: an owned URI, read-only to
//! the chain. A handler that wants to send the client elsewhere builds a
//! new URI for the response instead of mutating the request.

use vstd::prelude::*;
use crate::uri::Uri;
use crate::uri::UriView;

verus! {

/// An in-flight HTTP request.
pub struct Request {
    /// The request URI.
    pub uri: Uri,
}

impl View for Request {
    type V = UriView;

    open spec fn view(&self) -> UriView {
        self.uri@
    }
}

impl Request {
    /// A request for the given URI.
    pub fn with_uri(uri: Uri) -> (r: Request)
        ensures
            r.uri == uri,
    {
        Request { uri }
    }

    /// The request URI.
    pub fn uri(&self) -> (r: &Uri)
        ensures
            *r == self.uri,
    {
        &self.uri
    }
}

} // verus!
