//! What can go wrong in a chat.

use vstd::prelude::*;
use vstd::string::*;

verus! {

/// Why a chat, or one message of it, failed.
#[derive(Debug, PartialEq, Eq)]
pub enum Error {
    /// The bot could not be reached, or the connection broke.
    Network(String),
    /// The bot refused the request.
    Api(String),
    /// The terminal could not be set up.
    Client(String),
    /// The answer could not be read.
    Parse(String),
}

/// The model of an [`Error`].
pub enum ErrorView {
    Network(Seq<char>),
    Api(Seq<char>),
    Client(Seq<char>),
    Parse(Seq<char>),
}

impl View for Error {
    type V = ErrorView;

    open spec fn view(&self) -> ErrorView {
        match self {
            Error::Network(s) => ErrorView::Network(s@),
            Error::Api(s) => ErrorView::Api(s@),
            Error::Client(s) => ErrorView::Client(s@),
            Error::Parse(s) => ErrorView::Parse(s@),
        }
    }
}

impl DeepView for Error {
    type V = ErrorView;

    open spec fn deep_view(&self) -> ErrorView {
        self@
    }
}

impl ErrorView {
    /// The error as it is told to the user.
    pub open spec fn description(self) -> Seq<char> {
        match self {
            ErrorView::Network(s) => "Network error: "@ + s,
            ErrorView::Api(s) => "API error: "@ + s,
            ErrorView::Client(s) => "Client error: "@ + s,
            ErrorView::Parse(s) => "Parse error: "@ + s,
        }
    }
}

/// How a status code is written: the code and the words for it.
pub uninterp spec fn status_text(code: u16) -> Seq<char>;

/// Whether `code` is a status code at all: it has three digits.
pub open spec fn is_status(code: u16) -> bool {
    100 <= code <= 999
}

/// Whether `code` says that the request was carried out.
pub open spec fn is_success_status(code: u16) -> bool {
    200 <= code <= 299
}

/// A decimal digit.
pub open spec fn digit(value: int) -> char {
    (48 + value) as char
}

/// The three digits of a status code.
pub open spec fn status_digits(code: u16) -> Seq<char> {
    seq![digit(code as int / 100), digit(code as int / 10 % 10), digit(code as int % 10)]
}

/// What a refused request fails with: the status, and what the bot said.
pub open spec fn refusal(code: u16, said: Seq<char>) -> ErrorView {
    ErrorView::Api("Request failed ("@ + status_text(code) + "): "@ + said)
}

/// `reqwest::StatusCode::is_success`: true of 200 to 299.
#[verifier::external_body]
pub(crate) fn is_success(code: u16) -> (r: bool)
    requires
        is_status(code),
    ensures
        r == is_success_status(code),
{
    reqwest::StatusCode::from_u16(code).unwrap().is_success()
}

/// `reqwest::StatusCode` as `Display` writes it: the three digits of the code, a space, and
/// words that depend on the code alone.
#[verifier::external_body]
fn write_status(code: u16) -> (r: String)
    requires
        is_status(code),
    ensures
        r@ == status_text(code),
        r@.len() > 3,
        r@.take(3) == status_digits(code),
        r@[3] == ' ',
{
    reqwest::StatusCode::from_u16(code).unwrap().to_string()
}

impl Error {
    /// The error as it is told to the user.
    pub fn describe(&self) -> (r: String)
        ensures
            r@ == self@.description(),
    {
        match self {
            Error::Network(s) => "Network error: ".to_owned().concat(s.as_str()),
            Error::Api(s) => "API error: ".to_owned().concat(s.as_str()),
            Error::Client(s) => "Client error: ".to_owned().concat(s.as_str()),
            Error::Parse(s) => "Parse error: ".to_owned().concat(s.as_str()),
        }
    }

    /// The HTTP client could not be made.
    pub fn no_http_client(detail: &str) -> (r: Error)
        ensures
            r@ == ErrorView::Network("Failed to create HTTP client: "@ + detail@),
    {
        Error::Network("Failed to create HTTP client: ".to_owned().concat(detail))
    }

    /// The line editor could not be made.
    pub fn no_editor(detail: &str) -> (r: Error)
        ensures
            r@ == ErrorView::Client("Failed to initialize editor: "@ + detail@),
    {
        Error::Client("Failed to initialize editor: ".to_owned().concat(detail))
    }

    /// The request could not be sent.
    pub fn not_sent(detail: &str) -> (r: Error)
        ensures
            r@ == ErrorView::Network("Failed to send request: "@ + detail@),
    {
        Error::Network("Failed to send request: ".to_owned().concat(detail))
    }

    /// The answer broke off.
    pub fn stream_broke(detail: &str) -> (r: Error)
        ensures
            r@ == ErrorView::Network("Stream error: "@ + detail@),
    {
        Error::Network("Stream error: ".to_owned().concat(detail))
    }

    /// The answer could not be read.
    pub fn not_parsed(detail: &str) -> (r: Error)
        ensures
            r@ == ErrorView::Parse("Failed to parse response: "@ + detail@),
    {
        Error::Parse("Failed to parse response: ".to_owned().concat(detail))
    }

    /// The bot refused the request with a status that is written as `status`.
    pub fn refused_as(status: &str, said: &str) -> (r: Error)
        ensures
            r@ == ErrorView::Api("Request failed ("@ + status@ + "): "@ + said@),
    {
        let mut text = "Request failed (".to_owned();
        text.append(status);
        text.append("): ");
        text.append(said);
        Error::Api(text)
    }

    /// The bot refused the request with the status `code`. The error shows the code and ends with
    /// what the bot said.
    pub fn refused(code: u16, said: &str) -> (r: Error)
        requires
            is_status(code),
        ensures
            r@ == refusal(code, said@),
            status_text(code).len() > 3,
            status_text(code).take(3) == status_digits(code),
            status_text(code)[3] == ' ',
    {
        Error::refused_as(write_status(code).as_str(), said)
    }
}

} // verus!
