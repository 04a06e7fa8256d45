use slashnorm::Depot;
use slashnorm::FlowCtrl;
use slashnorm::Handler;
use slashnorm::Redirect;
use slashnorm::RedirectError;
use slashnorm::Request;
use slashnorm::ResBody;
use slashnorm::Response;
use slashnorm::TextHandler;
use slashnorm::Uri;
use slashnorm::replace_uri_path;
use slashnorm::run_chain;

#[test]
fn uri_string_forms() {
    let full = Uri::from_parts(
        Some("http".to_string()),
        Some("example.com".to_string()),
        "/a/b".to_string(),
        Some("x=1".to_string()),
    );
    assert_eq!(full.to_string().as_str(), "http://example.com/a/b?x=1");

    let bare = Uri::from_path("/a/b".to_string());
    assert_eq!(bare.to_string().as_str(), "/a/b");

    let with_query = Uri::from_parts(None, None, "/a".to_string(), Some("q".to_string()));
    assert_eq!(with_query.to_string().as_str(), "/a?q");
}

#[test]
fn replace_uri_path_keeps_everything_but_the_path() {
    let original = Uri::from_parts(
        Some("http".to_string()),
        Some("example.com".to_string()),
        "/old".to_string(),
        Some("k=v".to_string()),
    );
    let rewritten = replace_uri_path(&original, "/new/");
    assert_eq!(rewritten.scheme.as_deref(), Some("http"));
    assert_eq!(rewritten.authority.as_deref(), Some("example.com"));
    assert_eq!(rewritten.path.as_str(), "/new/");
    assert_eq!(rewritten.query.as_deref(), Some("k=v"));
    assert_eq!(rewritten.to_string().as_str(), "http://example.com/new/?k=v");
}

#[test]
fn replace_uri_path_without_query_stays_queryless() {
    let original = Uri::from_path("/old".to_string());
    let rewritten = replace_uri_path(&original, "/new");
    assert!(rewritten.query.is_none());
    assert_eq!(rewritten.to_string().as_str(), "/new");
}

#[test]
fn redirect_requires_a_redirection_code() {
    let uri = Uri::from_path("/x".to_string());
    assert!(Redirect::with_status_code(301, &uri).is_ok());
    assert!(Redirect::with_status_code(307, &uri).is_ok());
    assert!(Redirect::with_status_code(399, &uri).is_ok());
    assert!(matches!(
        Redirect::with_status_code(200, &uri),
        Err(RedirectError::InvalidStatusCode)
    ));
    assert!(matches!(
        Redirect::with_status_code(404, &uri),
        Err(RedirectError::InvalidStatusCode)
    ));
}

#[test]
fn response_renders_a_redirect() {
    let uri = Uri::from_parts(
        Some("http".to_string()),
        Some("example.com".to_string()),
        "/t/".to_string(),
        None,
    );
    let redirect = Redirect::with_status_code(302, &uri).unwrap();
    let mut res = Response::new();
    res.render(redirect);
    assert_eq!(res.status_code, Some(302));
    assert_eq!(
        res.header_value(&"Location".to_string()).unwrap().as_str(),
        "http://example.com/t/"
    );
}

#[test]
fn later_header_shadows_earlier() {
    let mut res = Response::new();
    res.insert_header("X-One".to_string(), "first".to_string());
    res.insert_header("X-Two".to_string(), "other".to_string());
    res.insert_header("X-One".to_string(), "second".to_string());
    assert_eq!(res.header_value(&"X-One".to_string()).unwrap().as_str(), "second");
    assert_eq!(res.header_value(&"X-Two".to_string()).unwrap().as_str(), "other");
    assert!(res.header_value(&"X-Three".to_string()).is_none());
}

#[test]
fn depot_stores_and_shadows_values() {
    let mut depot = Depot::new();
    assert!(!depot.contains_key(&"k".to_string()));
    depot.insert("k".to_string(), "v1".to_string());
    assert_eq!(depot.get(&"k".to_string()).unwrap().as_str(), "v1");
    depot.insert("k".to_string(), "v2".to_string());
    assert_eq!(depot.get(&"k".to_string()).unwrap().as_str(), "v2");
    assert!(depot.get(&"missing".to_string()).is_none());
}

#[test]
fn flow_ctrl_starts_clear_and_ceases() {
    let mut ctrl = FlowCtrl::new();
    assert!(!ctrl.skip_rest);
    ctrl.cease();
    assert!(ctrl.skip_rest);
}

#[test]
fn ceased_chain_runs_no_handler() {
    let chain: Vec<Box<dyn Handler>> =
        vec![Box::new(TextHandler::new(200, "Hello World".to_string()))];
    let mut req = Request::with_uri(Uri::from_path("/hello".to_string()));
    let mut depot = Depot::new();
    let mut res = Response::new();
    let mut ctrl = FlowCtrl::new();
    ctrl.cease();
    run_chain(&chain, &mut req, &mut depot, &mut res, &mut ctrl);
    assert_eq!(res.status_code, None);
    assert!(matches!(res.body, ResBody::Empty));
}

#[test]
fn text_handler_renders_status_and_body() {
    let chain: Vec<Box<dyn Handler>> =
        vec![Box::new(TextHandler::new(200, "Hello World".to_string()))];
    let mut req = Request::with_uri(Uri::from_path("/hello".to_string()));
    let mut depot = Depot::new();
    let mut res = Response::new();
    let mut ctrl = FlowCtrl::new();
    run_chain(&chain, &mut req, &mut depot, &mut res, &mut ctrl);
    assert_eq!(res.status_code, Some(200));
    match res.body {
        ResBody::Text(t) => assert_eq!(t.as_str(), "Hello World"),
        ResBody::Empty => panic!("expected a text body"),
    }
}
