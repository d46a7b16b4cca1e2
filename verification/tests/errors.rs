use roku_ecp::Error;

fn transport_failure() -> reqwest::Error {
    reqwest::Client::new().get("not an address").build().unwrap_err()
}

fn decode_failure() -> serde_xml_rs::Error {
    serde_xml_rs::Error::Custom { field: "missing field `udn`".to_string() }
}

#[test]
fn messages() {
    assert_eq!(Error::Request(transport_failure()).to_string(), "failed to send request");
    assert_eq!(
        Error::SSDPRequest(ssdp_client::Error::HTTPError(404)).to_string(),
        "failed to send SSDP request"
    );
    assert_eq!(Error::URLParse(url::ParseError::EmptyHost).to_string(), "failed to parse URL");
    assert_eq!(Error::XMLParse(decode_failure()).to_string(), "failed to parse XML");
    assert_eq!(
        Error::Argument("app.id required".to_string()).to_string(),
        "argument error `app.id required`"
    );
    assert_eq!(Error::Argument(String::new()).to_string(), "argument error ``");
}

#[test]
fn each_failure_converts_to_its_own_kind() {
    assert!(matches!(Error::from(transport_failure()), Error::Request(_)));
    assert!(matches!(
        Error::from(ssdp_client::Error::HTTPError(404)),
        Error::SSDPRequest(ssdp_client::Error::HTTPError(404))
    ));
    assert!(matches!(
        Error::from(url::ParseError::InvalidPort),
        Error::URLParse(url::ParseError::InvalidPort)
    ));
    assert!(matches!(
        Error::from(decode_failure()),
        Error::XMLParse(serde_xml_rs::Error::Custom { .. })
    ));
}

#[test]
fn question_mark_converts_failures() {
    fn parse(text: &str) -> Result<url::Url, Error> {
        Ok(url::Url::parse(text)?)
    }
    assert!(parse("http://203.0.113.5:8060/").is_ok());
    assert!(matches!(parse("http://"), Err(Error::URLParse(url::ParseError::EmptyHost))));
}
