use vstd::prelude::*;

use crate::text::{decimal, format_unsigned};
use crate::yahoo_error::{TransportFailure, TransportFailureView};

verus! {

/// The status of a response that carries what was asked for.
pub const STATUS_OK: u16 = 200;

/// A request that the library asks its driver to send. The driver keeps one
/// cookie store for all of them.
#[derive(Debug)]
pub enum HttpRequest {
    /// `GET` of the URL as it stands.
    Get { url: String },
    /// `GET` of the URL with the pairs as its query.
    GetWithQuery { url: String, query: Vec<(String, String)> },
    /// `POST` to the URL with the pairs as a form-encoded body.
    PostForm { url: String, form: Vec<(String, String)> },
}

/// An [`HttpRequest`] as specifications see it.
pub enum HttpRequestView {
    Get { url: Seq<char> },
    GetWithQuery { url: Seq<char>, query: Seq<(Seq<char>, Seq<char>)> },
    PostForm { url: Seq<char>, form: Seq<(Seq<char>, Seq<char>)> },
}

impl View for HttpRequest {
    type V = HttpRequestView;

    open spec fn view(&self) -> HttpRequestView {
        match self {
            HttpRequest::Get { url } => HttpRequestView::Get { url: url@ },
            HttpRequest::GetWithQuery { url, query } => HttpRequestView::GetWithQuery {
                url: url@,
                query: query.deep_view(),
            },
            HttpRequest::PostForm { url, form } => HttpRequestView::PostForm {
                url: url@,
                form: form.deep_view(),
            },
        }
    }
}

/// The `Location` header of a response.
#[derive(Debug)]
pub enum Location {
    /// The response has no such header.
    Missing,
    /// The header holds bytes that are no text; the string says which.
    Unreadable(String),
    /// The header's text.
    Text(String),
}

/// A [`Location`] as specifications see it.
pub enum LocationView {
    Missing,
    Unreadable(Seq<char>),
    Text(Seq<char>),
}

impl View for Location {
    type V = LocationView;

    open spec fn view(&self) -> LocationView {
        match self {
            Location::Missing => LocationView::Missing,
            Location::Unreadable(why) => LocationView::Unreadable(why@),
            Location::Text(target) => LocationView::Text(target@),
        }
    }
}

/// What the driver reports back after an action.
#[derive(Debug)]
pub enum HttpEvent {
    /// The request was answered: status and `Location` header of the response.
    /// The body has not been read.
    Answered { status: u16, location: Location },
    /// The request was not answered.
    SendFailed(TransportFailure),
    /// The body of the last response, read to its end.
    Body(String),
    /// The body of the last response could not be read.
    BodyFailed(TransportFailure),
}

/// An [`HttpEvent`] as specifications see it.
pub enum HttpEventView {
    Answered { status: u16, location: LocationView },
    SendFailed(TransportFailureView),
    Body(Seq<char>),
    BodyFailed(TransportFailureView),
}

impl View for HttpEvent {
    type V = HttpEventView;

    open spec fn view(&self) -> HttpEventView {
        match self {
            HttpEvent::Answered { status, location } => HttpEventView::Answered {
                status: *status,
                location: location@,
            },
            HttpEvent::SendFailed(cause) => HttpEventView::SendFailed(cause@),
            HttpEvent::Body(text) => HttpEventView::Body(text@),
            HttpEvent::BodyFailed(cause) => HttpEventView::BodyFailed(cause@),
        }
    }
}

/// Whether `status` says that the request succeeded.
pub open spec fn is_success(status: u16) -> bool {
    200 <= status < 300
}

/// Whether `status` says that the request succeeded.
pub fn status_is_success(status: u16) -> (succeeded: bool)
    ensures
        succeeded == is_success(status),
{
    200 <= status && status < 300
}

/// How the `http` crate writes `status`: the number and the reason phrase
/// that belongs to it. `None` where the crate takes the number for no status.
pub uninterp spec fn status_written(status: u16) -> Option<Seq<char>>;

/// Makes a status of the number with `http::StatusCode::from_u16` and writes
/// it as its `Display` does. Nothing is claimed of the outcome but that it is
/// the same for the same number.
#[verifier::external_body]
fn write_status(status: u16) -> (written: Option<String>)
    ensures
        written.deep_view() == status_written(status),
{
    match http::StatusCode::from_u16(status) {
        Ok(code) => Some(code.to_string()),
        Err(_) => None,
    }
}

/// The text that stands for a status in a message: what was written of it,
/// or the bare number where nothing was.
pub open spec fn status_or_number(written: Option<Seq<char>>, status: u16) -> Seq<char> {
    match written {
        Some(text) => text,
        None => decimal(status as nat),
    }
}

/// The text that stands for `status` in a message.
pub open spec fn status_text(status: u16) -> Seq<char> {
    status_or_number(status_written(status), status)
}

/// Chooses the text that stands for a status in a message.
pub fn choose_status_text(written: Option<String>, status: u16) -> (text: String)
    ensures
        text@ == status_or_number(written.deep_view(), status),
{
    match written {
        Some(text) => text,
        None => format_unsigned(status as u64),
    }
}

/// Writes the text that stands for `status` in a message: the number with
/// its reason phrase.
pub fn describe_status(status: u16) -> (text: String)
    ensures
        text@ == status_text(status),
{
    choose_status_text(write_status(status), status)
}

/// Whether `status` tells the client to look elsewhere.
pub open spec fn is_redirection(status: u16) -> bool {
    300 <= status < 400
}

/// Whether `status` tells the client to look elsewhere.
pub fn status_is_redirection(status: u16) -> (redirects: bool)
    ensures
        redirects == is_redirection(status),
{
    300 <= status && status < 400
}

} // verus!
