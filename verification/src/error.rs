//! The errors of the library.

use crate::text::push_char;
use reqwest::Error as TransportFailure;
use serde_xml_rs::Error as DecodeFailure;
use ssdp_client::Error as DiscoveryFailure;
use url::ParseError;
use vstd::prelude::*;
use vstd::std_specs::convert::FromSpecImpl;
use vstd::string::*;

verus! {

/// Trusted: the error type of the `reqwest` crate, which an HTTP transport
/// fails with. Nothing is claimed of what is inside a value.
#[verifier::external_type_specification]
#[verifier::external_body]
pub struct ExTransportFailure(TransportFailure);

/// Trusted: the error type of the `ssdp_client` crate, which a discovery
/// transport fails with. Nothing is claimed of what is inside a value.
#[verifier::external_type_specification]
#[verifier::external_body]
pub struct ExDiscoveryFailure(DiscoveryFailure);

/// Trusted: the error type of the `serde_xml_rs` crate, which a markup
/// decoder fails with. Nothing is claimed of what is inside a value.
#[verifier::external_type_specification]
#[verifier::external_body]
pub struct ExDecodeFailure(DecodeFailure);

/// Why an operation failed.
#[derive(Debug)]
pub enum Error {
    /// The HTTP transport failed.
    Request(TransportFailure),
    /// The discovery transport failed.
    SSDPRequest(DiscoveryFailure),
    /// A text is not an address, or a path does not resolve against one.
    URLParse(ParseError),
    /// A response body does not have the shape that was asked for.
    XMLParse(DecodeFailure),
    /// An argument lacks what the operation needs.
    Argument(String),
}

/// What an error holds: its kind, and the failure of the collaborator or the
/// text that says what is wrong with the argument.
pub enum ErrorView {
    Request(TransportFailure),
    SSDPRequest(DiscoveryFailure),
    URLParse(ParseError),
    XMLParse(DecodeFailure),
    Argument(Seq<char>),
}

impl View for Error {
    type V = ErrorView;

    open spec fn view(&self) -> ErrorView {
        match *self {
            Error::Request(source) => ErrorView::Request(source),
            Error::SSDPRequest(source) => ErrorView::SSDPRequest(source),
            Error::URLParse(source) => ErrorView::URLParse(source),
            Error::XMLParse(source) => ErrorView::XMLParse(source),
            Error::Argument(what) => ErrorView::Argument(what@),
        }
    }
}

impl ErrorView {
    /// The message of the error.
    pub open spec fn message(self) -> Seq<char> {
        match self {
            ErrorView::Request(_) => "failed to send request"@,
            ErrorView::SSDPRequest(_) => "failed to send SSDP request"@,
            ErrorView::URLParse(_) => "failed to parse URL"@,
            ErrorView::XMLParse(_) => "failed to parse XML"@,
            ErrorView::Argument(what) => "argument error `"@ + what + seq!['`'],
        }
    }
}

impl Error {
    /// The message of the error.
    pub fn to_string(&self) -> (s: String)
        ensures
            s@ == self@.message(),
    {
        match self {
            Error::Request(_) => String::from_str("failed to send request"),
            Error::SSDPRequest(_) => String::from_str("failed to send SSDP request"),
            Error::URLParse(_) => String::from_str("failed to parse URL"),
            Error::XMLParse(_) => String::from_str("failed to parse XML"),
            Error::Argument(what) => {
                let mut s = String::from_str("argument error `");
                s.append(what.as_str());
                push_char(&mut s, '`');
                s
            },
        }
    }
}

impl From<TransportFailure> for Error {
    fn from(source: TransportFailure) -> (error: Error) {
        Error::Request(source)
    }
}

impl FromSpecImpl<TransportFailure> for Error {
    open spec fn obeys_from_spec() -> bool {
        true
    }

    open spec fn from_spec(source: TransportFailure) -> Error {
        Error::Request(source)
    }
}

impl From<DiscoveryFailure> for Error {
    fn from(source: DiscoveryFailure) -> (error: Error) {
        Error::SSDPRequest(source)
    }
}

impl FromSpecImpl<DiscoveryFailure> for Error {
    open spec fn obeys_from_spec() -> bool {
        true
    }

    open spec fn from_spec(source: DiscoveryFailure) -> Error {
        Error::SSDPRequest(source)
    }
}

impl From<ParseError> for Error {
    fn from(source: ParseError) -> (error: Error) {
        Error::URLParse(source)
    }
}

impl FromSpecImpl<ParseError> for Error {
    open spec fn obeys_from_spec() -> bool {
        true
    }

    open spec fn from_spec(source: ParseError) -> Error {
        Error::URLParse(source)
    }
}

impl From<DecodeFailure> for Error {
    fn from(source: DecodeFailure) -> (error: Error) {
        Error::XMLParse(source)
    }
}

impl FromSpecImpl<DecodeFailure> for Error {
    open spec fn obeys_from_spec() -> bool {
        true
    }

    open spec fn from_spec(source: DecodeFailure) -> Error {
        Error::XMLParse(source)
    }
}

} // verus!
