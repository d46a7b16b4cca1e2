//! Network addresses, as the `url` crate parses and resolves them.
//!
//! An address is carried as the crate's own `Url` value. What parsing and
//! resolving return is not spelled out here: it is named, so that contracts
//! can say which address a request goes to.

use url::{ParseError, Url};
use vstd::prelude::*;

verus! {

/// Trusted: the parsed address of the `url` crate, `url::Url`. Nothing is
/// claimed of what is inside a value.
#[verifier::external_type_specification]
#[verifier::external_body]
pub struct ExUrl(url::Url);

/// Trusted: the error of the `url` crate's parser, `url::ParseError`. Nothing
/// is claimed of what is inside a value.
#[verifier::external_type_specification]
#[verifier::external_body]
pub struct ExParseError(url::ParseError);

/// What `Url::parse` returns for a text: the address that the text denotes,
/// or the reason why it denotes none.
pub uninterp spec fn url_parse(input: Seq<char>) -> Result<Url, ParseError>;

/// What `Url::join` returns for a base address and a reference: the address
/// that the reference denotes relative to the base, or the reason why it
/// denotes none.
pub uninterp spec fn url_join(base: Url, reference: Seq<char>) -> Result<Url, ParseError>;

/// Trusted: `Url::parse` of the `url` crate. The parser reads the text and
/// nothing else, so its result is a function of the text; the contract gives
/// that function a name and claims nothing more.
pub assume_specification[ Url::parse ](input: &str) -> (result: Result<Url, ParseError>)
    ensures
        result == url_parse(input@),
;

/// Trusted: `Url::join` of the `url` crate, which parses the reference with
/// the receiver as the base address. It reads the base and the reference and
/// nothing else, so its result is a function of the two; the contract gives
/// that function a name and claims nothing more.
pub assume_specification[ Url::join ](base: &Url, input: &str) -> (result: Result<
    Url,
    ParseError,
>)
    ensures
        result == url_join(*base, input@),
;

} // verus!
