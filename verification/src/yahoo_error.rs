use vstd::prelude::*;
use vstd::std_specs::convert::FromSpecImpl;
use vstd::string::*;

use crate::text::{decimal, format_unsigned, join};

verus! {

/// The parser's own account of why a text is no JSON document.
#[verifier::external_type_specification]
#[verifier::external_body]
pub struct ExJsonError(serde_json::Error);

/// What the library reads of a failure reported by the HTTP transport.
#[derive(Debug)]
pub struct TransportFailure {
    /// The connection could not be set up: name resolution, TCP or TLS failed.
    pub connect: bool,
    /// The status of the response that the failure was made from, if it was made from one.
    pub status: Option<u16>,
    /// The transport's own description of the failure.
    pub message: String,
}

/// A [`TransportFailure`] as specifications see it.
pub struct TransportFailureView {
    pub connect: bool,
    pub status: Option<u16>,
    pub message: Seq<char>,
}

impl View for TransportFailure {
    type V = TransportFailureView;

    open spec fn view(&self) -> TransportFailureView {
        TransportFailureView { connect: self.connect, status: self.status, message: self.message@ }
    }
}

/// What can go wrong between this library and the service.
#[derive(Debug)]
pub enum YahooError {
    /// The service answered, but not with what was asked for.
    FetchFailed(String),
    /// The response is no JSON document of the expected shape.
    DeserializeFailed(serde_json::Error),
    /// No connection to the service could be made.
    ConnectionFailed(TransportFailure),
    /// The response is JSON of an unknown layout.
    InvalidJson,
    /// The response holds no data.
    EmptyDataSet,
    /// The response contradicts itself.
    DataInconsistency,
    /// The HTTP client could not be set up.
    BuilderFailed,
    /// The service refused with status 429 while doing what the text says.
    TooManyRequests(String, TransportFailure),
    /// The transport failed in another way while doing what the text says.
    UnexpectedResponse(String, TransportFailure),
    /// The request was repeated that many times in vain; the last failure is attached.
    MaxRetriesReached(u8, Box<YahooError>),
    /// A token was not found in the consent page; the text quotes the start of the page.
    ExtractionFailed(String),
    /// No valid URL could be put together from the parts at hand.
    BuildFailed(String),
}

/// A [`YahooError`] as specifications see it.
pub enum YahooErrorView {
    FetchFailed(Seq<char>),
    DeserializeFailed(serde_json::Error),
    ConnectionFailed(TransportFailureView),
    InvalidJson,
    EmptyDataSet,
    DataInconsistency,
    BuilderFailed,
    TooManyRequests(Seq<char>, TransportFailureView),
    UnexpectedResponse(Seq<char>, TransportFailureView),
    MaxRetriesReached(u8, Box<YahooErrorView>),
    ExtractionFailed(Seq<char>),
    BuildFailed(Seq<char>),
}

impl View for YahooError {
    type V = YahooErrorView;

    open spec fn view(&self) -> YahooErrorView
        decreases self,
    {
        match self {
            YahooError::FetchFailed(text) => YahooErrorView::FetchFailed(text@),
            YahooError::DeserializeFailed(cause) => YahooErrorView::DeserializeFailed(*cause),
            YahooError::ConnectionFailed(cause) => YahooErrorView::ConnectionFailed(cause@),
            YahooError::InvalidJson => YahooErrorView::InvalidJson,
            YahooError::EmptyDataSet => YahooErrorView::EmptyDataSet,
            YahooError::DataInconsistency => YahooErrorView::DataInconsistency,
            YahooError::BuilderFailed => YahooErrorView::BuilderFailed,
            YahooError::TooManyRequests(action, cause) => YahooErrorView::TooManyRequests(
                action@,
                cause@,
            ),
            YahooError::UnexpectedResponse(action, cause) => YahooErrorView::UnexpectedResponse(
                action@,
                cause@,
            ),
            YahooError::MaxRetriesReached(attempts, last) => YahooErrorView::MaxRetriesReached(
                *attempts,
                Box::new((**last)@),
            ),
            YahooError::ExtractionFailed(text) => YahooErrorView::ExtractionFailed(text@),
            YahooError::BuildFailed(text) => YahooErrorView::BuildFailed(text@),
        }
    }
}

/// The status by which the service says that it has been asked too often.
pub const TOO_MANY_REQUESTS: u16 = 429;

/// The kind of error that a transport failure stands for, met while doing `action`.
///
/// A failure to connect comes first, whatever else the failure says; then the
/// status 429; everything else is an unexpected response.
pub open spec fn classified(cause: TransportFailureView, action: Seq<char>) -> YahooErrorView {
    if cause.connect {
        YahooErrorView::ConnectionFailed(cause)
    } else if cause.status == Some(TOO_MANY_REQUESTS) {
        YahooErrorView::TooManyRequests(action, cause)
    } else {
        YahooErrorView::UnexpectedResponse(action, cause)
    }
}

impl YahooError {
    /// Sorts a transport failure, met while doing `action`, into the kinds of
    /// error that callers tell apart.
    pub fn from_wreq_while(err: TransportFailure, action: &str) -> (error: YahooError)
        ensures
            error@ == classified(err@, action@),
    {
        if err.connect {
            return YahooError::ConnectionFailed(err);
        }
        if let Some(status) = err.status {
            if status == TOO_MANY_REQUESTS {
                return YahooError::TooManyRequests(String::from_str(action), err);
            }
        }
        YahooError::UnexpectedResponse(String::from_str(action), err)
    }
}

impl From<serde_json::Error> for YahooError {
    fn from(cause: serde_json::Error) -> (error: YahooError) {
        YahooError::DeserializeFailed(cause)
    }
}

impl FromSpecImpl<serde_json::Error> for YahooError {
    open spec fn obeys_from_spec() -> bool {
        true
    }

    open spec fn from_spec(cause: serde_json::Error) -> YahooError {
        YahooError::DeserializeFailed(cause)
    }
}

/// Writes the parser's account of its error with `to_string`. Nothing is
/// claimed of the text.
#[verifier::external_body]
fn parser_account(cause: &serde_json::Error) -> (text: String) {
    cause.to_string()
}

/// The sentence that tells a reader of `error`; `detail` is the parser's
/// account of its error and shows only where the response could not be
/// deserialized.
pub open spec fn described(error: YahooErrorView, detail: Seq<char>) -> Seq<char> {
    match error {
        YahooErrorView::FetchFailed(text) => "fetching the data from yahoo! finance failed: "@
            + text,
        YahooErrorView::DeserializeFailed(_) =>
            "deserializing response from yahoo! finance failed: "@ + detail,
        YahooErrorView::ConnectionFailed(cause) =>
            "connection to yahoo! finance server failed: "@ + cause.message,
        YahooErrorView::InvalidJson => "yahoo! finance return invalid JSON format"@,
        YahooErrorView::EmptyDataSet => "yahoo! finance returned an empty data set"@,
        YahooErrorView::DataInconsistency => "yahoo! finance returned inconsistent data"@,
        YahooErrorView::BuilderFailed => "construcing yahoo! finance client failed"@,
        YahooErrorView::TooManyRequests(action, cause) =>
            "server reports too many requests while "@ + action + ": "@ + cause.message,
        YahooErrorView::UnexpectedResponse(action, cause) => "unexpected response while "@
            + action + ": "@ + cause.message,
        YahooErrorView::MaxRetriesReached(attempts, _) => "request didn't succeed in "@
            + decimal(attempts as nat) + " retries"@,
        YahooErrorView::ExtractionFailed(text) => "reading the consent page failed: "@ + text,
        YahooErrorView::BuildFailed(text) => "building the request URL failed: "@ + text,
    }
}

fn while_doing(opening: &str, action: &str, cause: &TransportFailure) -> (text: String)
    ensures
        text@ == opening@ + action@ + ": "@ + cause@.message,
{
    let mut text = String::from_str(opening);
    text.append(action);
    text.append(": ");
    text.append(cause.message.as_str());
    text
}

impl YahooError {
    /// Writes the sentence that tells a reader of the error, with `detail` in
    /// the place of the parser's account.
    pub fn describe_with(&self, detail: &str) -> (text: String)
        ensures
            text@ == described(self@, detail@),
    {
        match self {
            YahooError::FetchFailed(text) => join(
                "fetching the data from yahoo! finance failed: ",
                text.as_str(),
            ),
            YahooError::DeserializeFailed(_) => join(
                "deserializing response from yahoo! finance failed: ",
                detail,
            ),
            YahooError::ConnectionFailed(cause) => join(
                "connection to yahoo! finance server failed: ",
                cause.message.as_str(),
            ),
            YahooError::InvalidJson => String::from_str("yahoo! finance return invalid JSON format"),
            YahooError::EmptyDataSet => String::from_str("yahoo! finance returned an empty data set"),
            YahooError::DataInconsistency => String::from_str(
                "yahoo! finance returned inconsistent data",
            ),
            YahooError::BuilderFailed => String::from_str("construcing yahoo! finance client failed"),
            YahooError::TooManyRequests(action, cause) => while_doing(
                "server reports too many requests while ",
                action.as_str(),
                cause,
            ),
            YahooError::UnexpectedResponse(action, cause) => while_doing(
                "unexpected response while ",
                action.as_str(),
                cause,
            ),
            YahooError::MaxRetriesReached(attempts, _) => {
                let digits = format_unsigned(*attempts as u64);
                let mut text = String::from_str("request didn't succeed in ");
                text.append(digits.as_str());
                text.append(" retries");
                text
            },
            YahooError::ExtractionFailed(text) => join(
                "reading the consent page failed: ",
                text.as_str(),
            ),
            YahooError::BuildFailed(text) => join("building the request URL failed: ", text.as_str()),
        }
    }

    /// Writes the sentence that tells a reader of the error. Where the
    /// response could not be deserialized the sentence ends with the parser's
    /// own account, of which nothing is known here.
    pub fn message(&self) -> (text: String)
        ensures
            exists|detail: Seq<char>| text@ == described(self@, detail),
            !(self@ is DeserializeFailed) ==> text@ == described(self@, Seq::empty()),
    {
        match self {
            YahooError::DeserializeFailed(cause) => {
                let detail = parser_account(cause);
                self.describe_with(detail.as_str())
            },
            _ => {
                proof {
                    reveal_strlit("");
                }
                self.describe_with("")
            },
        }
    }
}

} // verus!
