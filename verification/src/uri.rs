//! URI model: an optional scheme and authority, a path, and an optional
//! query, together with the rewrite utility that replaces the path while
//! preserving every other component.

use vstd::prelude::*;
use vstd::string::StringExecFns;
use vstd::string::StrSliceExecFns;

verus! {

/// Mathematical view of a [`Uri`]: each component as a character sequence.
pub ghost struct UriView {
    pub scheme: Option<Seq<char>>,
    pub authority: Option<Seq<char>>,
    pub path: Seq<char>,
    pub query: Option<Seq<char>>,
}

/// A request URI. Scheme and authority are optional; the path is always
/// present (it may be empty), and the query is kept separate from the
/// path so that a path rewrite can never corrupt it.
pub struct Uri {
    /// Scheme, without the `://` separator (for instance `http`).
    pub scheme: Option<String>,
    /// Authority: host, and port if any (for instance `127.0.0.1:7878`).
    pub authority: Option<String>,
    /// Path component, such as `/hello`.
    pub path: String,
    /// Query component, without the leading `?`.
    pub query: Option<String>,
}

impl View for Uri {
    type V = UriView;

    open spec fn view(&self) -> UriView {
        UriView {
            scheme: match self.scheme {
                Some(s) => Some(s@),
                None => None,
            },
            authority: match self.authority {
                Some(a) => Some(a@),
                None => None,
            },
            path: self.path@,
            query: match self.query {
                Some(q) => Some(q@),
                None => None,
            },
        }
    }
}

/// The string form of a URI: `scheme://` if a scheme is present, then the
/// authority if present, then the path, then `?query` if a query is
/// present.
pub open spec fn uri_string_of(u: UriView) -> Seq<char> {
    let scheme_part = match u.scheme {
        Some(s) => s + "://"@,
        None => Seq::<char>::empty(),
    };
    let authority_part = match u.authority {
        Some(a) => a,
        None => Seq::<char>::empty(),
    };
    let query_part = match u.query {
        Some(q) => "?"@ + q,
        None => Seq::<char>::empty(),
    };
    scheme_part + authority_part + u.path + query_part
}

impl Uri {
    /// A URI holding only a path: no scheme, authority or query.
    pub fn from_path(path: String) -> (r: Uri)
        ensures
            r@ == (UriView {
                scheme: None,
                authority: None,
                path: path@,
                query: None,
            }),
    {
        Uri { scheme: None, authority: None, path, query: None }
    }

    /// A URI built from all four components.
    pub fn from_parts(
        scheme: Option<String>,
        authority: Option<String>,
        path: String,
        query: Option<String>,
    ) -> (r: Uri)
        ensures
            r.scheme == scheme,
            r.authority == authority,
            r.path == path,
            r.query == query,
    {
        Uri { scheme, authority, path, query }
    }

    /// The path component.
    pub fn path(&self) -> (r: &String)
        ensures
            r@ == self@.path,
    {
        &self.path
    }

    /// The query component, if any.
    pub fn query(&self) -> (r: &Option<String>)
        ensures
            *r == self.query,
    {
        &self.query
    }

    /// The string form of this URI, as it would appear in a `Location`
    /// header.
    pub fn to_string(&self) -> (r: String)
        ensures
            r@ == uri_string_of(self@),
    {
        let mut out = String::new();
        match &self.scheme {
            Some(s) => {
                out.append(s.as_str());
                out.append("://");
            },
            None => {},
        }
        match &self.authority {
            Some(a) => {
                out.append(a.as_str());
            },
            None => {},
        }
        out.append(self.path.as_str());
        match &self.query {
            Some(q) => {
                out.append("?");
                out.append(q.as_str());
            },
            None => {},
        }
        proof {
            assert(out@ =~= uri_string_of(self@));
        }
        out
    }
}

/// Rebuilds a URI around a new path: the scheme, authority and query of
/// `original_uri` are kept exactly, and the path is replaced by
/// `new_path`.
pub fn replace_uri_path(original_uri: &Uri, new_path: &str) -> (r: Uri)
    ensures
        r@ == (UriView { path: new_path@, ..original_uri@ }),
{
    let scheme = match &original_uri.scheme {
        Some(s) => Some(s.clone()),
        None => None,
    };
    let authority = match &original_uri.authority {
        Some(a) => Some(a.clone()),
        None => None,
    };
    let query = match &original_uri.query {
        Some(q) => Some(q.clone()),
        None => None,
    };
    Uri { scheme, authority, path: String::from_str(new_path), query }
}

} // verus!
