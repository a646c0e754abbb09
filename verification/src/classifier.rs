//! Classification of a received response: success, rate limit, or failure.

use crate::headers::header_text;
use crate::json::{json_member, json_reading, json_string, json_text, member, read_json, write_json};
use crate::response::{get_header_value, optional_text, Response, ResponseData};
use serde_json::Value;
use vstd::prelude::*;
use vstd::std_specs::convert::FromSpecImpl;
use vstd::string::to_string_from_display_ensures;

verus! {

/// What became of one HTTP exchange.
#[derive(Debug, PartialEq, Eq)]
pub enum ResponseOutcome {
    /// The request succeeded; the body of the response.
    Success(String),
    /// The server asked the caller to slow down.
    RateLimited {
        /// The rate-limit bucket that the response names, empty if it names none.
        bucket: String,
        /// What the body holds under `data`, if it is JSON with such a member.
        partial_data: Option<String>,
    },
    /// The server answered with any other status.
    Failure {
        /// The address that was asked.
        url: String,
        /// The status of the response.
        status_code: u16,
        /// The body of the response, empty if it could not be read.
        body: String,
    },
    /// The exchange did not complete.
    TransportError {
        /// What the transport said of it.
        message: String,
    },
}

/// A `ResponseOutcome` with its texts as sequences of characters.
pub enum Outcome {
    Success(Seq<char>),
    RateLimited { bucket: Seq<char>, partial_data: Option<Seq<char>> },
    Failure { url: Seq<char>, status_code: u16, body: Seq<char> },
    TransportError { message: Seq<char> },
}

impl View for ResponseOutcome {
    type V = Outcome;

    open spec fn view(&self) -> Outcome {
        match *self {
            ResponseOutcome::Success(body) => Outcome::Success(body@),
            ResponseOutcome::RateLimited { bucket, partial_data } => Outcome::RateLimited {
                bucket: bucket@,
                partial_data: optional_text(partial_data),
            },
            ResponseOutcome::Failure { url, status_code, body } => Outcome::Failure {
                url: url@,
                status_code,
                body: body@,
            },
            ResponseOutcome::TransportError { message } => Outcome::TransportError {
                message: message@,
            },
        }
    }
}

/// The failures that a caller of the HTTP layer has to tell apart.
#[derive(Debug)]
pub enum HttpError {
    /// The transport failed.
    NetworkError(reqwest::Error),
    /// The server asked the caller to slow down.
    RateLimited {
        /// The rate-limit bucket that the response names, empty if it names none.
        rate_limit_bucket: String,
        /// What the body holds under `data`, if it is JSON with such a member.
        partial_data: Option<String>,
    },
    /// The server answered with a status that is neither a success nor a
    /// rate limit.
    HttpFailure {
        /// The address that was asked.
        url: String,
        /// The status of the response.
        status_code: u16,
        /// The body of the response, empty if it could not be read.
        body: String,
    },
}

impl HttpError {
    /// The outcome that this failure stands for, where it came from a
    /// response; a failure of the transport came from none.
    pub open spec fn outcome(&self) -> Option<Outcome> {
        match *self {
            HttpError::NetworkError(_) => None,
            HttpError::RateLimited { rate_limit_bucket, partial_data } => Some(
                Outcome::RateLimited {
                    bucket: rate_limit_bucket@,
                    partial_data: optional_text(partial_data),
                },
            ),
            HttpError::HttpFailure { url, status_code, body } => Some(
                Outcome::Failure { url: url@, status_code, body: body@ },
            ),
        }
    }
}

impl FromSpecImpl<reqwest::Error> for HttpError {
    open spec fn obeys_from_spec() -> bool {
        true
    }

    open spec fn from_spec(error: reqwest::Error) -> Self {
        HttpError::NetworkError(error)
    }
}

impl From<reqwest::Error> for HttpError {
    fn from(error: reqwest::Error) -> (failure: Self) {
        HttpError::NetworkError(error)
    }
}

/// The status code that announces a rate limit.
pub const TOO_MANY_REQUESTS: u16 = 429;

/// Name of the header that names the rate-limit bucket.
pub open spec fn rate_limit_bucket_header() -> Seq<char> {
    "X-RateLimit-Bucket"@
}

/// Name of the member under which a rate-limited response holds what it
/// could still deliver.
pub open spec fn partial_data_member() -> Seq<char> {
    "data"@
}

/// The rate-limit bucket that headers name: the text of the bucket header,
/// empty where there is none.
pub open spec fn bucket_of(values: Map<Seq<char>, Seq<Seq<u8>>>) -> Seq<char> {
    match header_text(values, rate_limit_bucket_header()) {
        Some(bucket) => bucket,
        None => Seq::empty(),
    }
}

/// A JSON value as a text: a string by its content, any other value by
/// the JSON text that stands for it.
pub open spec fn stringified(value: Value) -> Seq<char> {
    match json_string(value) {
        Some(content) => content,
        None => json_text(value),
    }
}

/// The partial data in a JSON document: its member `data`, stringified.
pub open spec fn partial_data_in(document: Value) -> Option<Seq<char>> {
    match json_member(document, partial_data_member()) {
        Some(value) => Some(stringified(value)),
        None => None,
    }
}

/// The partial data in a body: that of the JSON document it is, and
/// nothing where it is no JSON or was not read.
pub open spec fn partial_data_of(body: Result<Seq<char>, Seq<char>>) -> Option<Seq<char>> {
    match body {
        Ok(text) => match json_reading(text) {
            Some(document) => partial_data_in(document),
            None => None,
        },
        Err(_) => None,
    }
}

/// The outcome that a response stands for.
pub open spec fn classification(response: ResponseData) -> Outcome {
    if response.status == TOO_MANY_REQUESTS {
        Outcome::RateLimited {
            bucket: bucket_of(response.headers),
            partial_data: partial_data_of(response.body),
        }
    } else if 200 <= response.status < 300 {
        Outcome::Success(response.body_or_empty())
    } else {
        Outcome::Failure {
            url: response.url,
            status_code: response.status,
            body: response.body_or_empty(),
        }
    }
}

/// Writes a JSON value as a text: a string by its content, any other value
/// as JSON.
pub fn value_as_text(value: &Value) -> (text: String)
    ensures
        text@ == stringified(*value),
{
    match value.as_str() {
        Some(content) => String::from_str(content),
        None => write_json(value),
    }
}

/// What a JSON document holds under `data`, stringified.
pub fn extract_partial_data(document: &Value) -> (partial_data: Option<String>)
    ensures
        optional_text(partial_data) == partial_data_in(*document),
{
    match member(document, "data") {
        Some(value) => Some(value_as_text(value)),
        None => None,
    }
}

/// What a body holds under `data`, where the body is a JSON document.
pub fn read_partial_data(body: &str) -> (partial_data: Option<String>)
    ensures
        optional_text(partial_data) == partial_data_of(Ok(body@)),
{
    match read_json(body) {
        Some(document) => extract_partial_data(&document),
        None => None,
    }
}

/// The rate-limit bucket that a response names, empty if it names none.
pub fn rate_limit_bucket(response: &Response) -> (bucket: String)
    ensures
        bucket@ == bucket_of(response@.headers),
{
    match get_header_value(response, "X-RateLimit-Bucket") {
        Some(bucket) => bucket,
        None => String::new(),
    }
}

impl ResponseOutcome {
    /// The outcome of an exchange that the transport gave up with `message`.
    pub fn transport_failure(message: String) -> (outcome: ResponseOutcome)
        ensures
            outcome == (ResponseOutcome::TransportError { message }),
    {
        ResponseOutcome::TransportError { message }
    }

    /// The outcome of an exchange that the transport ended with `error`, told in the error's words.
    pub fn transport_error(error: &reqwest::Error) -> (outcome: ResponseOutcome)
        ensures
            outcome matches ResponseOutcome::TransportError { message }
                && to_string_from_display_ensures::<reqwest::Error>(error, message),
    {
        Self::transport_failure(error.to_string())
    }
}

/// Classifies a received response.
///
/// Status 429 is a rate limit, with the bucket that the response names and
/// the partial data of its body. A status from 200 to 299 is a success with
/// the body. Any other status is a failure with address, status and body. A
/// body that could not be read counts as empty, and as holding no data.
pub fn classify(response: Response) -> (outcome: ResponseOutcome)
    ensures
        outcome@ == classification(response@),
{
    let status = response.status.as_u16();
    if status == TOO_MANY_REQUESTS {
        let bucket = rate_limit_bucket(&response);
        let partial_data = match response.body {
            Ok(text) => read_partial_data(text.as_str()),
            Err(_) => None,
        };
        ResponseOutcome::RateLimited { bucket, partial_data }
    } else if response.status.is_success() {
        ResponseOutcome::Success(response.into_text())
    } else {
        let url = response.url.clone();
        ResponseOutcome::Failure { url, status_code: status, body: response.into_text() }
    }
}

/// Passes a response that succeeded, and makes an error of any other.
///
/// A response that is classified as a success passes. A rate limit is the
/// error `RateLimited`, with the bucket and the partial data of that
/// outcome. Any other response is the error `HttpFailure`, with the
/// address, the status and the body of that outcome.
pub fn process_response(response: Response) -> (result: Result<(), HttpError>)
    ensures
        result is Ok <==> classification(response@) is Success,
        result is Err ==> result->Err_0.outcome() == Some(classification(response@)),
{
    match classify(response) {
        ResponseOutcome::Success(_) => Ok(()),
        ResponseOutcome::RateLimited { bucket, partial_data } => Err(
            HttpError::RateLimited { rate_limit_bucket: bucket, partial_data },
        ),
        ResponseOutcome::Failure { url, status_code, body } => Err(
            HttpError::HttpFailure { url, status_code, body },
        ),
        ResponseOutcome::TransportError { .. } => vstd::pervasive::unreached(),
    }
}

} // verus!
