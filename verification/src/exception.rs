//! The failure of a REST request, with the response that caused it where
//! there is one.

use crate::response::Response;
use crate::status::status_line_text;
use vstd::prelude::*;
use vstd::std_specs::convert::FromSpecImpl;
use vstd::string::to_string_from_display_ensures;

verus! {

/// A failed REST request: a message, and the response behind it if the
/// failure came with one.
#[allow(non_camel_case_types)]
#[derive(Debug)]
pub struct http_rest_request_exception {
    /// The response that failed, if the failure came with one.
    pub response: Option<Response>,
    /// What went wrong, in words.
    pub message: String,
}

impl http_rest_request_exception {
    /// The text that `to_string` gives.
    pub open spec fn text(&self) -> Seq<char> {
        match self.response {
            Some(response) => response.url@ + " - "@ + self.message@,
            None => self.message@,
        }
    }

    /// A failure without response or message.
    pub fn new() -> (exception: http_rest_request_exception)
        ensures
            exception.response is None,
            exception.message@ == Seq::<char>::empty(),
    {
        http_rest_request_exception { response: None, message: String::new() }
    }

    /// A failure that is told in words only.
    pub fn with_message(message: &str) -> (exception: http_rest_request_exception)
        ensures
            exception.response is None,
            exception.message@ == message@,
    {
        http_rest_request_exception { response: None, message: String::from_str(message) }
    }

    /// The failure that a response stands for: its message is the status
    /// line, the code and its reason phrase.
    pub fn with_response(response: Response) -> (exception: http_rest_request_exception)
        ensures
            exception.response == Some(response),
            exception.message@ == status_line_text(response.status.as_u16() as int),
    {
        let message = response.status.to_string();
        http_rest_request_exception { response: Some(response), message }
    }

    /// The failure as one line: the address of the response, where there is
    /// one, a dash, and the message.
    pub fn to_string(&self) -> (text: String)
        ensures
            text@ == self.text(),
    {
        match &self.response {
            Some(response) => {
                let mut text = response.url.clone();
                text.append(" - ");
                text.append(self.message.as_str());
                text
            },
            None => self.message.clone(),
        }
    }
}

impl FromSpecImpl<reqwest::Error> for http_rest_request_exception {
    open spec fn obeys_from_spec() -> bool {
        false
    }

    open spec fn from_spec(error: reqwest::Error) -> Self {
        arbitrary()
    }
}

impl From<reqwest::Error> for http_rest_request_exception {
    /// The failure of the transport itself: no response, and as message what
    /// the error says of itself when it is displayed.
    fn from(error: reqwest::Error) -> (exception: Self)
        ensures
            exception.response is None,
            to_string_from_display_ensures::<reqwest::Error>(&error, exception.message),
    {
        http_rest_request_exception { response: None, message: error.to_string() }
    }
}

} // verus!
