use slashnorm::Depot;
use slashnorm::FlowCtrl;
use slashnorm::Handler;
use slashnorm::Request;
use slashnorm::ResBody;
use slashnorm::Response;
use slashnorm::ReqFilter;
use slashnorm::TextHandler;
use slashnorm::TrailingSlash;
use slashnorm::TrailingSlashAction;
use slashnorm::Uri;
use slashnorm::add_slash;
use slashnorm::default_add_filter;
use slashnorm::default_remove_filter;
use slashnorm::remove_slash;
use slashnorm::run_chain;

fn send(chain: &Vec<Box<dyn Handler>>, path: &str) -> Response {
    send_with_query(chain, path, None)
}

fn send_with_query(chain: &Vec<Box<dyn Handler>>, path: &str, query: Option<&str>) -> Response {
    let uri = Uri::from_parts(
        Some("http".to_string()),
        Some("127.0.0.1:7878".to_string()),
        path.to_string(),
        query.map(|q| q.to_string()),
    );
    let mut req = Request::with_uri(uri);
    let mut depot = Depot::new();
    let mut res = Response::new();
    let mut ctrl = FlowCtrl::new();
    run_chain(chain, &mut req, &mut depot, &mut res, &mut ctrl);
    res
}

fn location_of(res: &Response) -> String {
    res.header_value(&"Location".to_string())
        .expect("a redirect response carries a Location header")
        .clone()
}

fn hello_chain(normalizer: Box<dyn Handler>) -> Vec<Box<dyn Handler>> {
    vec![
        normalizer,
        Box::new(TextHandler::new(200, "Hello World".to_string())),
    ]
}

#[test]
fn test_add_slash() {
    let chain = hello_chain(Box::new(add_slash()));

    let res = send(&chain, "/hello");
    assert_eq!(res.status_code, Some(301));
    assert_eq!(location_of(&res).as_str(), "http://127.0.0.1:7878/hello/");

    let res = send(&chain, "/hello/");
    assert_eq!(res.status_code, Some(200));

    let res = send(&chain, "/hello.world");
    assert_eq!(res.status_code, Some(200));
}

#[test]
fn test_remove_slash() {
    let chain = hello_chain(Box::new(remove_slash().with_redirect_code(307)));

    let res = send(&chain, "/hello/");
    assert_eq!(res.status_code, Some(200));

    let res = send(&chain, "/hello.world/");
    assert_eq!(res.status_code, Some(307));
    assert_eq!(location_of(&res).as_str(), "http://127.0.0.1:7878/hello.world");

    let res = send(&chain, "/hello.world");
    assert_eq!(res.status_code, Some(200));
}

#[test]
fn add_slash_preserves_query() {
    let chain = hello_chain(Box::new(add_slash()));
    let res = send_with_query(&chain, "/hello", Some("a=1&b=2"));
    assert_eq!(res.status_code, Some(301));
    assert_eq!(
        location_of(&res).as_str(),
        "http://127.0.0.1:7878/hello/?a=1&b=2"
    );
}

#[test]
fn add_slash_without_query_adds_none() {
    let chain = hello_chain(Box::new(add_slash()));
    let res = send(&chain, "/hello");
    assert!(!location_of(&res).contains('?'));
}

#[test]
fn remove_slash_strips_every_trailing_slash() {
    let chain = hello_chain(Box::new(remove_slash()));
    let res = send(&chain, "/hello.world//");
    assert_eq!(res.status_code, Some(301));
    assert_eq!(location_of(&res).as_str(), "http://127.0.0.1:7878/hello.world");
}

struct RejectAll;

impl ReqFilter for RejectAll {
    fn accepts(&self, _req: Request) -> bool {
        false
    }

    fn check(&self, _req: &Request) -> bool {
        false
    }
}

#[test]
fn rejecting_filter_suppresses_every_redirect() {
    let add_chain = hello_chain(Box::new(
        TrailingSlash::new(TrailingSlashAction::Add).with_filter(RejectAll),
    ));
    let res = send(&add_chain, "/hello");
    assert_eq!(res.status_code, Some(200));
    assert!(res.header_value(&"Location".to_string()).is_none());

    let remove_chain = hello_chain(Box::new(
        TrailingSlash::new(TrailingSlashAction::Remove).with_filter(RejectAll),
    ));
    let res = send(&remove_chain, "/hello.world/");
    assert_eq!(res.status_code, Some(200));
    assert!(res.header_value(&"Location".to_string()).is_none());
}

#[test]
fn default_filter_heuristics() {
    let plain = Request::with_uri(Uri::from_path("/hello".to_string()));
    let file_like = Request::with_uri(Uri::from_path("/hello.world".to_string()));
    let slashed = Request::with_uri(Uri::from_path("/hello/".to_string()));
    let file_slashed = Request::with_uri(Uri::from_path("/hello.world/".to_string()));

    assert!(default_add_filter(&plain));
    assert!(!default_add_filter(&file_like));
    assert!(!default_remove_filter(&slashed));
    assert!(default_remove_filter(&file_slashed));
}

#[test]
fn default_add_filter_needs_a_slash() {
    let no_slash = Request::with_uri(Uri::from_path("hello".to_string()));
    assert!(!default_add_filter(&no_slash));
    let trimmed_to_nothing = Request::with_uri(Uri::from_path("///".to_string()));
    assert!(!default_remove_filter(&trimmed_to_nothing));
}

#[test]
fn redirect_short_circuits_the_chain() {
    let chain = hello_chain(Box::new(add_slash()));
    let res = send(&chain, "/hello");
    assert_eq!(res.status_code, Some(301));
    assert!(matches!(res.body, ResBody::Empty));
}

#[test]
fn unfiltered_normalizer_redirects_everything_nonempty() {
    let chain = hello_chain(Box::new(TrailingSlash::new_add()));
    let res = send(&chain, "/hello.world");
    assert_eq!(res.status_code, Some(301));
    assert_eq!(
        location_of(&res).as_str(),
        "http://127.0.0.1:7878/hello.world/"
    );
}

#[test]
fn empty_path_is_left_alone() {
    let chain = hello_chain(Box::new(TrailingSlash::new_add()));
    let res = send(&chain, "");
    assert_eq!(res.status_code, Some(200));
    assert!(res.header_value(&"Location".to_string()).is_none());
}

#[test]
fn already_normalized_paths_pass_through() {
    let add_chain = hello_chain(Box::new(TrailingSlash::new_add()));
    let res = send(&add_chain, "/hello/");
    assert_eq!(res.status_code, Some(200));

    let remove_chain = hello_chain(Box::new(TrailingSlash::new_remove()));
    let res = send(&remove_chain, "/hello");
    assert_eq!(res.status_code, Some(200));
}

#[test]
fn non_redirect_code_falls_through_to_target() {
    let chain = hello_chain(Box::new(TrailingSlash::new_add().with_redirect_code(200)));
    let res = send(&chain, "/hello");
    assert_eq!(res.status_code, Some(200));
    assert!(res.header_value(&"Location".to_string()).is_none());
    assert!(matches!(res.body, ResBody::Text(_)));
}

#[test]
fn builder_configures_action_and_code() {
    let ts = TrailingSlash::new(TrailingSlashAction::Remove);
    assert_eq!(ts.action, TrailingSlashAction::Remove);
    assert_eq!(ts.redirect_code, 301);
    assert!(ts.filter.is_none());

    let ts = TrailingSlash::new_add().with_redirect_code(308);
    assert_eq!(ts.action, TrailingSlashAction::Add);
    assert_eq!(ts.redirect_code, 308);
}
