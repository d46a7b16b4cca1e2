use roku_ecp::{App, Device, Error, Key, Method, Request, Search, SearchType};
use url::{ParseError, Url};

fn device() -> Device {
    Device::new(Url::parse("http://203.0.113.5:8060/").unwrap())
}

fn app(id: Option<&str>) -> App {
    App { id: id.map(|id| id.to_string()), name: "Netflix".to_string(), version: None }
}

fn pair(key: &str, value: &str) -> (String, String) {
    (key.to_string(), value.to_string())
}

fn expect(request: Result<Request, Error>, method: Method, url: &str) -> Vec<(String, String)> {
    let request = request.unwrap();
    assert_eq!(request.method, method);
    assert_eq!(request.url.as_str(), url);
    request.query
}

#[test]
fn device_info_path_resolves_against_the_base_address() {
    let request = device().device_info().unwrap();
    assert_eq!(request.url.as_str(), "http://203.0.113.5:8060/query/device-info");
    assert_eq!(request.method, Method::Get);
    assert!(request.query.is_empty());
}

#[test]
fn the_handle_keeps_its_address() {
    let url = Url::parse("http://203.0.113.5:8060/").unwrap();
    let device = Device::new(url.clone());
    assert_eq!(device.address(), &url);
    assert_eq!(device.address().as_str(), "http://203.0.113.5:8060/");
}

#[test]
fn queries_are_gets_without_parameters() {
    let device = device();
    assert!(expect(device.apps(), Method::Get, "http://203.0.113.5:8060/query/apps").is_empty());
    assert!(
        expect(device.active_app(), Method::Get, "http://203.0.113.5:8060/query/active-app")
            .is_empty()
    );
    assert!(
        expect(device.media_player(), Method::Get, "http://203.0.113.5:8060/query/media-player")
            .is_empty()
    );
    assert!(
        expect(device.device_info(), Method::Get, "http://203.0.113.5:8060/query/device-info")
            .is_empty()
    );
}

#[test]
fn key_commands_are_posts_to_the_key_token() {
    let device = device();
    assert!(
        expect(device.keydown(&Key::Home), Method::Post, "http://203.0.113.5:8060/keydown/Home")
            .is_empty()
    );
    assert!(
        expect(device.keyup(&Key::Home), Method::Post, "http://203.0.113.5:8060/keyup/Home")
            .is_empty()
    );
    assert!(
        expect(
            device.keypress(&Key::VolumeMute),
            Method::Post,
            "http://203.0.113.5:8060/keypress/VolumeMute"
        )
        .is_empty()
    );
    assert!(
        expect(
            device.keypress(&Key::Lit('5')),
            Method::Post,
            "http://203.0.113.5:8060/keypress/Lit_5"
        )
        .is_empty()
    );
}

#[test]
fn launch_and_install_go_to_the_identifier() {
    let device = device();
    assert!(
        expect(device.launch(&app(Some("12"))), Method::Post, "http://203.0.113.5:8060/launch/12")
            .is_empty()
    );
    assert!(
        expect(
            device.install(&app(Some("2285"))),
            Method::Post,
            "http://203.0.113.5:8060/install/2285"
        )
        .is_empty()
    );
}

#[test]
fn launch_without_identifier_is_an_argument_error() {
    match device().launch(&app(None)) {
        Err(Error::Argument(what)) => assert_eq!(what, "app.id required"),
        other => panic!("expected an argument error, got {:?}", other),
    }
}

#[test]
fn install_without_identifier_is_an_argument_error() {
    match device().install(&app(None)) {
        Err(Error::Argument(what)) => assert_eq!(what, "app.id required"),
        other => panic!("expected an argument error, got {:?}", other),
    }
}

#[test]
fn the_identifier_is_checked_before_the_address() {
    let device = Device::new(Url::parse("mailto:someone@example.com").unwrap());
    assert!(matches!(device.launch(&app(None)), Err(Error::Argument(_))));
    assert!(matches!(device.install(&app(None)), Err(Error::Argument(_))));
    assert!(matches!(device.launch(&app(Some("12"))), Err(Error::URLParse(_))));
}

#[test]
fn input_pairs_pass_through_in_order_and_unchanged() {
    let pairs = vec![pair("b", "2"), pair("a", "1 & 2"), pair("b", "é=?"), pair("", "")];
    let query = expect(device().input(&pairs), Method::Post, "http://203.0.113.5:8060/input");
    assert_eq!(query, pairs);
}

#[test]
fn input_without_pairs() {
    let query = expect(device().input(&[]), Method::Post, "http://203.0.113.5:8060/input");
    assert!(query.is_empty());
}

#[test]
fn search_carries_the_built_parameters() {
    let mut search = Search::new("the wire".to_string());
    search.season(3).search_type(SearchType::TvShow).provider("hulu".to_string()).launch(true);
    let query = expect(device().search(search), Method::Post, "http://203.0.113.5:8060/search");
    assert_eq!(
        query,
        vec![
            pair("keyword", "the wire"),
            pair("launch", "true"),
            pair("provider", "hulu"),
            pair("type", "tv-show"),
            pair("season", "3"),
        ]
    );
}

#[test]
fn resolution_keeps_scheme_host_and_port() {
    let device = Device::new(Url::parse("http://roku.example:8060").unwrap());
    let request = device.keypress(&Key::Select).unwrap();
    assert_eq!(request.url.scheme(), "http");
    assert_eq!(request.url.host_str(), Some("roku.example"));
    assert_eq!(request.url.port(), Some(8060));
    assert_eq!(request.url.path(), "/keypress/Select");
}

#[test]
fn an_address_that_cannot_be_a_base_fails_every_operation() {
    let device = Device::new(Url::parse("mailto:someone@example.com").unwrap());
    let error = ParseError::RelativeUrlWithCannotBeABaseBase;
    assert!(matches!(device.apps(), Err(Error::URLParse(e)) if e == error));
    assert!(matches!(device.active_app(), Err(Error::URLParse(e)) if e == error));
    assert!(matches!(device.media_player(), Err(Error::URLParse(e)) if e == error));
    assert!(matches!(device.device_info(), Err(Error::URLParse(e)) if e == error));
    assert!(matches!(device.keydown(&Key::Up), Err(Error::URLParse(e)) if e == error));
    assert!(matches!(device.keyup(&Key::Up), Err(Error::URLParse(e)) if e == error));
    assert!(matches!(device.keypress(&Key::Up), Err(Error::URLParse(e)) if e == error));
    assert!(matches!(device.input(&[]), Err(Error::URLParse(e)) if e == error));
    let search = Search::new("k".to_string());
    assert!(matches!(device.search(search), Err(Error::URLParse(e)) if e == error));
}
