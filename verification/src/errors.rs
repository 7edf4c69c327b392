//! The errors of client operations.
use vstd::prelude::*;

verus! {

#[verifier::external_type_specification]
pub struct ExUrlParseError(url::ParseError);

/// The text that `url::ParseError` shows for each of its variants.
pub open spec fn parse_error_text(e: url::ParseError) -> Seq<char> {
    match e {
        url::ParseError::EmptyHost => "empty host"@,
        url::ParseError::IdnaError => "invalid international domain name"@,
        url::ParseError::InvalidPort => "invalid port number"@,
        url::ParseError::InvalidIpv4Address => "invalid IPv4 address"@,
        url::ParseError::InvalidIpv6Address => "invalid IPv6 address"@,
        url::ParseError::InvalidDomainCharacter => "invalid domain character"@,
        url::ParseError::RelativeUrlWithoutBase => "relative URL without a base"@,
        url::ParseError::RelativeUrlWithCannotBeABaseBase => "relative URL with a cannot-be-a-base base"@,
        url::ParseError::SetHostOnCannotBeABaseUrl => "a cannot-be-a-base URL doesn’t have a host to set"@,
        // `ParseError::Overflow`, the one variant left.
        _ => "URLs more than 4 GB are not supported"@,
    }
}

#[verifier::external_type_specification]
#[verifier::external_body]
pub struct ExReqwestError(reqwest::Error);

/// Error for client operations.
#[derive(Debug)]
pub enum HttpClientError {
    /// The url passed is invalid.
    ParseHostError(url::ParseError),
    /// The host is not registered (on a request to a registered host).
    HostNotFound(String),
    /// An error occurred during the request.
    Request(reqwest::Error),
    /// The url holds no hostname (on a request to a registered host).
    NoHostname(String),
}

/// The text of a url parse error: its `Display`, which writes the fixed
/// description of the variant.
#[verifier::external_body]
fn url_error_text(e: &url::ParseError) -> (r: String)
    ensures
        r@ == parse_error_text(*e),
{
    format!("{e}")
}

/// The text of a request error (its `Display`). Nothing is stated of it.
#[verifier::external_body]
fn request_error_text(e: &reqwest::Error) -> (r: String) {
    format!("{e}")
}

impl HttpClientError {
    /// The fixed text that opens the message of the error, by its kind.
    pub open spec fn prefix(&self) -> Seq<char> {
        match self {
            HttpClientError::HostNotFound(_) => "Host not registred: "@,
            HttpClientError::ParseHostError(_) => "Invalid url: "@,
            HttpClientError::Request(_) => "Request Failed: "@,
            HttpClientError::NoHostname(_) => "The url does not have a host: "@,
        }
    }

    /// The message of the error with `detail` as its detail: the fixed text of
    /// its kind followed by `detail`.
    pub fn message_with(&self, detail: &str) -> (r: String)
        ensures
            r@ == self.prefix() + detail@,
    {
        let prefix = match self {
            HttpClientError::HostNotFound(_) => "Host not registred: ",
            HttpClientError::ParseHostError(_) => "Invalid url: ",
            HttpClientError::Request(_) => "Request Failed: ",
            HttpClientError::NoHostname(_) => "The url does not have a host: ",
        };
        let mut text = String::from_str(prefix);
        text.append(detail);
        text
    }

    /// The message that describes the error: the fixed text of its kind,
    /// followed by the host, the url, the text of the parse error, or the text
    /// of the request error.
    pub fn message(&self) -> (r: String)
        ensures
            match self {
                HttpClientError::HostNotFound(h) => r@ == self.prefix() + h@,
                HttpClientError::NoHostname(u) => r@ == self.prefix() + u@,
                HttpClientError::ParseHostError(e) => r@ == self.prefix() + parse_error_text(*e),
                HttpClientError::Request(_) => self.prefix().is_prefix_of(r@),
            },
    {
        let detail = match self {
            HttpClientError::HostNotFound(h) => h.clone(),
            HttpClientError::ParseHostError(e) => url_error_text(e),
            HttpClientError::Request(e) => request_error_text(e),
            HttpClientError::NoHostname(u) => u.clone(),
        };
        let r = self.message_with(detail.as_str());
        assert(self.prefix().is_prefix_of(r@)) by {
            assert(r@.subrange(0, self.prefix().len() as int) =~= self.prefix());
        }
        r
    }
}

impl From<reqwest::Error> for HttpClientError {
    fn from(e: reqwest::Error) -> (r: Self) {
        HttpClientError::Request(e)
    }
}

impl vstd::std_specs::convert::FromSpecImpl<reqwest::Error> for HttpClientError {
    open spec fn obeys_from_spec() -> bool {
        true
    }

    open spec fn from_spec(e: reqwest::Error) -> Self {
        HttpClientError::Request(e)
    }
}

} // verus!
