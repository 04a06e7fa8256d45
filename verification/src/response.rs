//! The in-progress response: a status code (unset until some handler
//! decides), response headers, and a body. Also the redirect value a
//! handler renders into the response.

use vstd::prelude::*;
use vstd::string::StringExecFns;
use crate::uri::Uri;
use crate::uri::uri_string_of;

verus! {

/// Response body: nothing yet, or text.
pub enum ResBody {
    /// No body.
    Empty,
    /// A textual body.
    Text(String),
}

/// The value of the last header named `name` among `headers`, or `None`
/// when no header has that name.
pub open spec fn header_of(headers: Seq<(String, String)>, name: Seq<char>) -> Option<Seq<char>>
    decreases headers.len(),
{
    if headers.len() == 0 {
        None
    } else if headers.last().0@ == name {
        Some(headers.last().1@)
    } else {
        header_of(headers.drop_last(), name)
    }
}

/// An in-progress HTTP response, owned by the handler chain while it
/// runs.
pub struct Response {
    /// Status code; `None` until a handler sets one.
    pub status_code: Option<u16>,
    /// Response headers, in the order they were added.
    pub headers: Vec<(String, String)>,
    /// Response body.
    pub body: ResBody,
}

impl Response {
    /// A fresh response: no status, no headers, no body.
    pub fn new() -> (r: Response)
        ensures
            r.status_code is None,
            r.headers@ == Seq::<(String, String)>::empty(),
            r.body is Empty,
    {
        Response { status_code: None, headers: Vec::new(), body: ResBody::Empty }
    }

    /// Sets the status code.
    pub fn set_status_code(&mut self, code: u16)
        ensures
            final(self).status_code == Some(code),
            final(self).headers == old(self).headers,
            final(self).body == old(self).body,
    {
        self.status_code = Some(code);
    }

    /// Replaces the body.
    pub fn set_body(&mut self, body: ResBody)
        ensures
            final(self).body == body,
            final(self).status_code == old(self).status_code,
            final(self).headers == old(self).headers,
    {
        self.body = body;
    }

    /// Adds a header. A later header with the same name shadows an
    /// earlier one when looked up.
    pub fn insert_header(&mut self, name: String, value: String)
        ensures
            header_of(final(self).headers@, name@) == Some(value@),
            forall|n: Seq<char>| n != name@ ==> header_of(final(self).headers@, n) == header_of(
                old(self).headers@,
                n,
            ),
            final(self).status_code == old(self).status_code,
            final(self).body == old(self).body,
    {
        let ghost pre = self.headers@;
        let ghost nv = name@;
        self.headers.push((name, value));
        proof {
            assert(self.headers@.drop_last() =~= pre);
            assert forall|n: Seq<char>| n != nv implies header_of(self.headers@, n) == header_of(
                pre,
                n,
            ) by {
                assert(self.headers@.last().0@ == nv);
            }
        }
    }

    /// The value of the header named `name`, if any: the last one added
    /// under that name.
    pub fn header_value(&self, name: &String) -> (r: Option<&String>)
        ensures
            match r {
                Some(v) => header_of(self.headers@, name@) == Some(v@),
                None => header_of(self.headers@, name@) is None,
            },
    {
        let n = self.headers.len();
        proof {
            assert(self.headers@.subrange(0, n as int) =~= self.headers@);
        }
        let mut i: usize = n;
        while i > 0
            invariant
                i <= n == self.headers@.len(),
                header_of(self.headers@, name@) == header_of(
                    self.headers@.subrange(0, i as int),
                    name@,
                ),
            decreases i,
        {
            proof {
                let p = self.headers@.subrange(0, i as int);
                assert(p.last() == self.headers@[i - 1]);
                assert(p.drop_last() =~= self.headers@.subrange(0, i - 1));
            }
            if self.headers[i - 1].0 == *name {
                return Some(&self.headers[i - 1].1);
            }
            i = i - 1;
        }
        proof {
            assert(self.headers@.subrange(0, 0) =~= Seq::<(String, String)>::empty());
        }
        None
    }

    /// Writes a redirect into this response: its status code, and a
    /// `Location` header holding the target's string form.
    pub fn render(&mut self, redirect: Redirect)
        ensures
            final(self).status_code == Some(redirect.status_code),
            header_of(final(self).headers@, "Location"@) == Some(redirect.location@),
            forall|n: Seq<char>| n != "Location"@ ==> header_of(final(self).headers@, n)
                == header_of(old(self).headers@, n),
            final(self).body == old(self).body,
    {
        self.set_status_code(redirect.status_code);
        self.insert_header(String::from_str("Location"), redirect.location);
    }
}

/// Is `code` an HTTP redirection status code?
pub open spec fn is_redirect_code(code: u16) -> bool {
    300 <= code < 400
}

/// Why a redirect could not be built.
#[derive(PartialEq, Eq, Structural, Debug, Clone, Copy)]
pub enum RedirectError {
    /// The requested status code is not a redirection code.
    InvalidStatusCode,
}

/// A redirect ready to be rendered: a redirection status code and the
/// target location.
pub struct Redirect {
    /// The redirection status code.
    pub status_code: u16,
    /// String form of the target URI.
    pub location: String,
}

impl Redirect {
    /// Builds a redirect to `uri` with the given status code. Fails
    /// exactly when `code` is not a redirection code (3xx).
    pub fn with_status_code(code: u16, uri: &Uri) -> (r: Result<Redirect, RedirectError>)
        ensures
            r is Ok <==> is_redirect_code(code),
            r matches Ok(red) ==> red.status_code == code && red.location@ == uri_string_of(uri@),
            r matches Err(e) ==> e == RedirectError::InvalidStatusCode,
    {
        if 300 <= code && code < 400 {
            Ok(Redirect { status_code: code, location: uri.to_string() })
        } else {
            Err(RedirectError::InvalidStatusCode)
        }
    }
}

} // verus!
