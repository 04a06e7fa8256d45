//! Request-processing core of an HTTP handler pipeline: a request and
//! response model, a per-request context store, a control-flow signal, a
//! handler chain executor, a URI rewrite utility, and a trailing-slash
//! normalization middleware proved to preserve the query component and
//! to short-circuit the chain exactly when it redirects.

mod depot;
mod flow;
mod handler;
mod request;
mod response;
mod strutil;
mod trailing_slash;
mod uri;

pub use depot::Depot;
pub use flow::FlowCtrl;
pub use handler::ChainState;
pub use handler::Handler;
pub use handler::chain_state;
pub use handler::lemma_chain_short_circuit;
pub use handler::chain_steps;
pub use handler::TextHandler;
pub use handler::run_chain;
pub use request::Request;
pub use response::Redirect;
pub use response::RedirectError;
pub use response::ResBody;
pub use response::Response;
pub use response::header_of;
pub use response::is_redirect_code;
pub use strutil::contains_char;
pub use strutil::ends_with_char;
pub use strutil::last_index_of;
pub use strutil::trim_end_char;
pub use trailing_slash::AddFilter;
pub use trailing_slash::MOVED_PERMANENTLY;
pub use trailing_slash::RemoveFilter;
pub use trailing_slash::ReqFilter;
pub use trailing_slash::TrailingSlash;
pub use trailing_slash::TrailingSlashAction;
pub use trailing_slash::Unfiltered;
pub use trailing_slash::add_filter_spec;
pub use trailing_slash::add_slash;
pub use trailing_slash::default_add_filter;
pub use trailing_slash::default_remove_filter;
pub use trailing_slash::filter_accepts;
pub use trailing_slash::lemma_add_on_terminated;
pub use trailing_slash::lemma_normalize_idempotent;
pub use trailing_slash::lemma_remove_on_slash_free;
pub use trailing_slash::normalized_path;
pub use trailing_slash::remove_filter_spec;
pub use trailing_slash::remove_slash;
pub use uri::Uri;
pub use uri::UriView;
pub use uri::replace_uri_path;
pub use uri::uri_string_of;
