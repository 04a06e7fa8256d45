//! Trailing-slash normalization middleware: a handler that rewrites the
//! request path to canonically add or remove the terminating separator
//! and answers with a redirect, subject to a configurable filter.

use vstd::prelude::*;
use vstd::string::StringExecFns;
use vstd::string::StrSliceExecFns;
use crate::depot::Depot;
use crate::flow::FlowCtrl;
use crate::handler::ChainState;
use crate::handler::Handler;
use crate::request::Request;
use crate::response::Redirect;
use crate::response::ResBody;
use crate::response::Response;
use crate::response::header_of;
use crate::response::is_redirect_code;
use crate::strutil::contains_char;
use crate::strutil::ends_with_char;
use crate::strutil::last_index_of;
use crate::strutil::lemma_last_index_of;
use crate::strutil::lemma_trim_end_char;
use crate::strutil::str_contains_char_in;
use crate::strutil::str_ends_with_char;
use crate::strutil::str_rfind_char;
use crate::strutil::str_trim_end_len;
use crate::strutil::trim_end_char;
use crate::uri::UriView;
use crate::uri::replace_uri_path;
use crate::uri::uri_string_of;

verus! {

/// The default status code for a normalization redirect.
pub const MOVED_PERMANENTLY: u16 = 301;

/// What the normalizer does to a path.
#[derive(PartialEq, Eq, Structural, Debug, Clone, Copy)]
pub enum TrailingSlashAction {
    /// Remove trailing slash.
    Remove,
    /// Add trailing slash.
    Add,
}

/// Does the segment after the last `/` of `p` lack a `.`? True exactly
/// when `p` contains a `/` and its last segment looks like a directory
/// rather than a file.
pub open spec fn add_filter_spec(p: Seq<char>) -> bool {
    contains_char(p, '/') && !contains_char(
        p.subrange(last_index_of(p, '/') + 1, p.len() as int),
        '.',
    )
}

/// After trimming trailing slashes, does the segment after the last `/`
/// hold a `.`? True exactly when a `/` remains after trimming and the
/// last segment looks like a file.
pub open spec fn remove_filter_spec(p: Seq<char>) -> bool {
    let t = trim_end_char(p, '/');
    contains_char(t, '/') && contains_char(
        t.subrange(last_index_of(t, '/') + 1, t.len() as int),
        '.',
    )
}

/// Default filter used for [`TrailingSlash`] when its action is
/// [`TrailingSlashAction::Add`]: eligible unless the last path segment
/// contains a `.`; false when the path has no `/` at all.
pub fn default_add_filter(req: &Request) -> (r: bool)
    ensures
        r == add_filter_spec(req@.path),
{
    let path = req.uri.path.as_str();
    let n = path.unicode_len();
    proof {
        lemma_last_index_of(path@, '/');
    }
    match str_rfind_char(path, '/') {
        Some(i) => !str_contains_char_in(path, i + 1, n, '.'),
        None => false,
    }
}

/// Default filter used for [`TrailingSlash`] when its action is
/// [`TrailingSlashAction::Remove`]: eligible only when, once trailing
/// slashes are trimmed, the last path segment contains a `.`; false
/// when no `/` remains after trimming.
pub fn default_remove_filter(req: &Request) -> (r: bool)
    ensures
        r == remove_filter_spec(req@.path),
{
    let path = req.uri.path.as_str();
    let k = str_trim_end_len(path, '/');
    let trimmed = path.substring_char(0, k);
    proof {
        lemma_last_index_of(trimmed@, '/');
    }
    match str_rfind_char(trimmed, '/') {
        Some(i) => str_contains_char_in(trimmed, i + 1, k, '.'),
        None => false,
    }
}

/// A pluggable, side-effect-free decision on whether normalization
/// applies to a request. Implementations must be pure: the answer is a
/// function of the request alone, which `accepts` names at the
/// specification level.
pub trait ReqFilter {
    /// What this filter answers for a request.
    spec fn accepts(&self, req: Request) -> bool;

    /// Evaluates the filter on a request.
    fn check(&self, req: &Request) -> (r: bool)
        ensures
            r == self.accepts(*req),
    ;
}

/// The default filter for the Add action, as a [`ReqFilter`].
pub struct AddFilter;

impl ReqFilter for AddFilter {
    open spec fn accepts(&self, req: Request) -> bool {
        add_filter_spec(req@.path)
    }

    fn check(&self, req: &Request) -> (r: bool) {
        default_add_filter(req)
    }
}

/// The default filter for the Remove action, as a [`ReqFilter`].
pub struct RemoveFilter;

impl ReqFilter for RemoveFilter {
    open spec fn accepts(&self, req: Request) -> bool {
        remove_filter_spec(req@.path)
    }

    fn check(&self, req: &Request) -> (r: bool) {
        default_remove_filter(req)
    }
}

/// The filter slot of a normalizer built without one: it never runs,
/// and an absent filter accepts every request.
pub struct Unfiltered;

impl ReqFilter for Unfiltered {
    open spec fn accepts(&self, req: Request) -> bool {
        true
    }

    fn check(&self, req: &Request) -> (r: bool) {
        true
    }
}

/// Whether a configured filter lets a request through; an absent filter
/// lets everything through.
pub open spec fn filter_accepts<F: ReqFilter>(filter: Option<F>, req: Request) -> bool {
    match filter {
        Some(f) => f.accepts(req),
        None => true,
    }
}

/// The decision table of the normalizer on a non-empty path: `Add`
/// appends a `/` when none terminates the path, `Remove` strips all
/// trailing `/`s when one does, and anything else leaves the request
/// alone. `None` means no redirect is triggered.
pub open spec fn normalized_path(action: TrailingSlashAction, p: Seq<char>) -> Option<Seq<char>> {
    if p.len() == 0 {
        None
    } else if action == TrailingSlashAction::Add && !ends_with_char(p, '/') {
        Some(p.push('/'))
    } else if action == TrailingSlashAction::Remove && ends_with_char(p, '/') {
        Some(trim_end_char(p, '/'))
    } else {
        None
    }
}

/// Trailing-slash normalization middleware. Immutable once built: one
/// instance is shared, read-only, across all requests.
pub struct TrailingSlash<F: ReqFilter> {
    /// Action of this `TrailingSlash`.
    pub action: TrailingSlashAction,
    /// Remove or add slash only when this filter answers true.
    pub filter: Option<F>,
    /// Status code used for the redirect.
    pub redirect_code: u16,
}

impl TrailingSlash<Unfiltered> {
    /// A new normalizer with the given action, no filter, and the
    /// default redirect code.
    pub fn new(action: TrailingSlashAction) -> (r: Self)
        ensures
            r.action == action,
            r.filter is None,
            r.redirect_code == MOVED_PERMANENTLY,
    {
        TrailingSlash { action, filter: None, redirect_code: MOVED_PERMANENTLY }
    }

    /// A new normalizer whose action is [`TrailingSlashAction::Add`].
    pub fn new_add() -> (r: Self)
        ensures
            r.action == TrailingSlashAction::Add,
            r.filter is None,
            r.redirect_code == MOVED_PERMANENTLY,
    {
        Self::new(TrailingSlashAction::Add)
    }

    /// A new normalizer whose action is [`TrailingSlashAction::Remove`].
    pub fn new_remove() -> (r: Self)
        ensures
            r.action == TrailingSlashAction::Remove,
            r.filter is None,
            r.redirect_code == MOVED_PERMANENTLY,
    {
        Self::new(TrailingSlashAction::Remove)
    }
}

impl<F: ReqFilter> TrailingSlash<F> {
    /// The same normalizer with the given filter.
    pub fn with_filter<G: ReqFilter>(self, filter: G) -> (r: TrailingSlash<G>)
        ensures
            r.action == self.action,
            r.filter == Some(filter),
            r.redirect_code == self.redirect_code,
    {
        TrailingSlash { action: self.action, filter: Some(filter), redirect_code: self.redirect_code }
    }

    /// The same normalizer with the given redirect status code.
    pub fn with_redirect_code(self, redirect_code: u16) -> (r: TrailingSlash<F>)
        ensures
            r.action == self.action,
            r.filter == self.filter,
            r.redirect_code == redirect_code,
    {
        TrailingSlash { redirect_code, ..self }
    }
}

impl<F: ReqFilter> Handler for TrailingSlash<F> {
    /// One pass of the normalizer. When the filter lets the request
    /// through, the decision table triggers, and the redirect is built
    /// successfully — which it is exactly when the configured code is a
    /// redirection code — the chain is stopped, the body is cleared,
    /// and the response carries that status and a `Location` header
    /// naming the original URI with the normalized path and the query
    /// kept as it was. The redirect is built before the signal is set,
    /// so a misconfigured, non-redirection code issues no redirect and
    /// lets the request fall through to the downstream handler
    /// untouched. In every other case, too, the request passes through
    /// unobserved.
    open spec fn pass(&self, pre: ChainState, post: ChainState) -> bool {
        let triggered = filter_accepts(self.filter, pre.req) && normalized_path(
            self.action,
            pre.req@.path,
        ) is Some && is_redirect_code(self.redirect_code);
        &&& post.req == pre.req
        &&& post.depot == pre.depot
        &&& !triggered ==> post.res == pre.res && post.ctrl == pre.ctrl
        &&& triggered ==> ({
            let target = (UriView {
                path: normalized_path(self.action, pre.req@.path).unwrap(),
                ..pre.req@
            });
            &&& post.ctrl.skip_rest
            &&& post.res.body is Empty
            &&& post.res.status_code == Some(self.redirect_code)
            &&& header_of(post.res.headers@, "Location"@) == Some(uri_string_of(target))
            &&& forall|n: Seq<char>|
                n != "Location"@ ==> header_of(post.res.headers@, n) == header_of(
                    pre.res.headers@,
                    n,
                )
        })
    }

    fn handle(&self, req: &mut Request, depot: &mut Depot, res: &mut Response, ctrl: &mut FlowCtrl)
    {
        let pass = match &self.filter {
            Some(f) => f.check(req),
            None => true,
        };
        if !pass {
            return ;
        }
        let ghost p = req@.path;
        let original_path = req.uri.path.as_str();
        if original_path.is_empty() {
            return ;
        }
        let ends_with_slash = str_ends_with_char(original_path, '/');
        let new_path: Option<String> = if self.action == TrailingSlashAction::Add
            && !ends_with_slash {
            let mut appended = String::from_str(original_path);
            appended.append("/");
            proof {
                reveal_strlit("/");
                assert(appended@ =~= p.push('/'));
            }
            Some(appended)
        } else if self.action == TrailingSlashAction::Remove && ends_with_slash {
            let k = str_trim_end_len(original_path, '/');
            Some(String::from_str(original_path.substring_char(0, k)))
        } else {
            None
        };
        match new_path {
            Some(new_path) => {
                let new_uri = replace_uri_path(req.uri(), new_path.as_str());
                match Redirect::with_status_code(self.redirect_code, &new_uri) {
                    Ok(redirect) => {
                        ctrl.cease();
                        res.set_body(ResBody::Empty);
                        res.render(redirect);
                    },
                    Err(_) => {},
                }
            },
            None => {},
        }
    }
}

/// An add-slash middleware: the Add action behind the default add
/// filter.
pub fn add_slash() -> (r: TrailingSlash<AddFilter>)
    ensures
        r.action == TrailingSlashAction::Add,
        r.filter == Some(AddFilter),
        r.redirect_code == MOVED_PERMANENTLY,
{
    TrailingSlash::new(TrailingSlashAction::Add).with_filter(AddFilter)
}

/// A remove-slash middleware: the Remove action behind the default
/// remove filter.
pub fn remove_slash() -> (r: TrailingSlash<RemoveFilter>)
    ensures
        r.action == TrailingSlashAction::Remove,
        r.filter == Some(RemoveFilter),
        r.redirect_code == MOVED_PERMANENTLY,
{
    TrailingSlash::new(TrailingSlashAction::Remove).with_filter(RemoveFilter)
}

/// Add-normalization never triggers on a path that already ends with
/// the separator.
pub proof fn lemma_add_on_terminated(p: Seq<char>)
    requires
        ends_with_char(p, '/'),
    ensures
        normalized_path(TrailingSlashAction::Add, p) is None,
{
}

/// Remove-normalization never triggers on a path free of a trailing
/// separator.
pub proof fn lemma_remove_on_slash_free(p: Seq<char>)
    requires
        !ends_with_char(p, '/'),
    ensures
        normalized_path(TrailingSlashAction::Remove, p) is None,
{
}

/// Normalization is idempotent: a path the decision table has already
/// rewritten never triggers the same action again.
pub proof fn lemma_normalize_idempotent(action: TrailingSlashAction, p: Seq<char>)
    requires
        normalized_path(action, p) is Some,
    ensures
        normalized_path(action, normalized_path(action, p).unwrap()) is None,
{
    let np = normalized_path(action, p).unwrap();
    if action == TrailingSlashAction::Add {
        assert(np[np.len() - 1] == '/');
    } else {
        lemma_trim_end_char(p, '/');
    }
}

} // verus!
