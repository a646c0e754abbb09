//! A received HTTP response as plain data, and what is read from its
//! headers.

use crate::decimal::{
    decimal_digits, decimal_string, is_numeric_text, lemma_decimal_digits_numeric,
    lemma_signed_decimal_digits_numeric, signed_decimal_digits, signed_decimal_string,
};
use crate::exception::http_rest_request_exception;
use crate::headers::{
    header_key, header_text, header_values, lemma_header_reads_back, lemma_other_header_kept,
    plain_header_name, read_header, visible_text, with_header, write_header,
    FEWEST_NAMES_OF_A_FULL_MAP,
};
use crate::status::{status_line_text, StatusCode};
use crate::timestamps::UtcInstant;
use crate::timing::CallTiming;
use reqwest::header::HeaderMap;
use vstd::prelude::*;
use vstd::utf8::encode_utf8;

verus! {

/// The text behind an optional string.
pub open spec fn optional_text(text: Option<String>) -> Option<Seq<char>> {
    match text {
        Some(text) => Some(text@),
        None => None,
    }
}

/// The texts behind the reading of a body.
pub open spec fn reading_text(body: Result<String, String>) -> Result<Seq<char>, Seq<char>> {
    match body {
        Ok(text) => Ok(text@),
        Err(message) => Err(message@),
    }
}

/// A response whose body has been read, once, by the transport.
#[derive(Debug)]
pub struct Response {
    /// The status code.
    pub status: StatusCode,
    /// The address the response came from.
    pub url: String,
    /// The headers.
    pub headers: HeaderMap,
    /// The text of the body, or what the transport said when it could not
    /// read it.
    pub body: Result<String, String>,
}

/// A response as plain data.
pub struct ResponseData {
    /// The number of the status code.
    pub status: u16,
    /// The address the response came from.
    pub url: Seq<char>,
    /// The headers: under each name, in lower case, all its values, each as
    /// its bytes.
    pub headers: Map<Seq<char>, Seq<Seq<u8>>>,
    /// The text of the body, or what the transport said when it could not
    /// read it.
    pub body: Result<Seq<char>, Seq<char>>,
}

impl ResponseData {
    /// The body as far as it was read: empty where it was not.
    pub open spec fn body_or_empty(self) -> Seq<char> {
        match self.body {
            Ok(text) => text,
            Err(_) => Seq::empty(),
        }
    }

    /// This response with other headers.
    pub open spec fn with_headers(self, headers: Map<Seq<char>, Seq<Seq<u8>>>) -> ResponseData {
        ResponseData { headers, ..self }
    }
}

impl View for Response {
    type V = ResponseData;

    open spec fn view(&self) -> ResponseData {
        ResponseData {
            status: self.status.as_u16(),
            url: self.url@,
            headers: header_values(self.headers),
            body: reading_text(self.body),
        }
    }
}

impl Response {
    /// Gives up the response for the text of its body, empty where the
    /// transport could not read it.
    pub fn into_text(self) -> (text: String)
        ensures
            text@ == self@.body_or_empty(),
    {
        match self.body {
            Ok(text) => text,
            Err(_) => String::new(),
        }
    }
}

/// Name of the header that tells when the request was sent, in epoch
/// seconds.
pub open spec fn call_sent_header() -> Seq<char> {
    "X-CallSent-Timestamp"@
}

/// Name of the header that tells when the response was received, in epoch
/// seconds.
pub open spec fn call_received_header() -> Seq<char> {
    "X-CallReceived-Timestamp"@
}

/// Name of the header that tells how long the call took, in milliseconds.
pub open spec fn call_length_header() -> Seq<char> {
    "X-CallLength-Milliseconds"@
}

/// What the three timing headers say of a call: when it was sent and when
/// its response was received, both in epoch seconds, and the milliseconds
/// between the two.
pub open spec fn call_time_texts(timing: CallTiming) -> (Seq<char>, Seq<char>, Seq<char>) {
    (
        signed_decimal_digits(timing.sent_at().timestamp() as int),
        signed_decimal_digits(timing.received_at().timestamp() as int),
        decimal_digits(timing.elapsed_ms() as nat),
    )
}

/// The headers `values` with the first `count` of the three timing headers
/// set: when the call was sent, when its response was received, and how long
/// that took.
pub open spec fn with_timing_headers(
    values: Map<Seq<char>, Seq<Seq<u8>>>,
    timing: CallTiming,
    count: int,
) -> Map<Seq<char>, Seq<Seq<u8>>> {
    let texts = call_time_texts(timing);
    let sent = with_header(values, call_sent_header(), texts.0);
    let received = with_header(sent, call_received_header(), texts.1);
    let length = with_header(received, call_length_header(), texts.2);
    if count <= 0 {
        values
    } else if count == 1 {
        sent
    } else if count == 2 {
        received
    } else {
        length
    }
}

/// What `get_call_length` reads from headers: the text of the call-length
/// header, followed by the unit.
pub open spec fn call_length_text(values: Map<Seq<char>, Seq<Seq<u8>>>) -> Option<Seq<char>> {
    match header_text(values, call_length_header()) {
        Some(length) => Some(length + " ms"@),
        None => None,
    }
}

/// The three timing headers have names of their own kind: no two of them
/// are one header.
pub proof fn lemma_timing_header_names_differ()
    ensures
        header_key(call_sent_header()) != header_key(call_received_header()),
        header_key(call_sent_header()) != header_key(call_length_header()),
        header_key(call_received_header()) != header_key(call_length_header()),
{
    reveal_strlit("X-CallSent-Timestamp");
    reveal_strlit("X-CallReceived-Timestamp");
    reveal_strlit("X-CallLength-Milliseconds");
    assert(header_key(call_sent_header()).len() == 20);
    assert(header_key(call_received_header()).len() == 24);
    assert(header_key(call_length_header()).len() == 25);
}

/// The names of the three timing headers are plain: letters and hyphens,
/// no more than 64 of them.
pub proof fn lemma_timing_header_names_plain()
    ensures
        plain_header_name(call_sent_header()),
        plain_header_name(call_received_header()),
        plain_header_name(call_length_header()),
{
    reveal_strlit("X-CallSent-Timestamp");
    reveal_strlit("X-CallReceived-Timestamp");
    reveal_strlit("X-CallLength-Milliseconds");
}

/// The values of the three timing headers are visible text.
pub proof fn lemma_call_time_texts_visible(timing: CallTiming)
    ensures
        visible_text(call_time_texts(timing).0),
        visible_text(call_time_texts(timing).1),
        visible_text(call_time_texts(timing).2),
{
    lemma_signed_decimal_digits_numeric(timing.sent_at().timestamp() as int);
    lemma_signed_decimal_digits_numeric(timing.received_at().timestamp() as int);
    lemma_decimal_digits_numeric(timing.elapsed_ms() as nat);
    lemma_numeric_text_visible(call_time_texts(timing).0);
    lemma_numeric_text_visible(call_time_texts(timing).1);
    lemma_numeric_text_visible(call_time_texts(timing).2);
}

/// Whether headers leave room for the three timing headers in any map
/// that holds them.
pub open spec fn has_room_for_timing(values: Map<Seq<char>, Seq<Seq<u8>>>) -> bool {
    values.dom().finite() && values.dom().len() + 2 < FEWEST_NAMES_OF_A_FULL_MAP
}

/// Once the timing headers are attached, each reads back as what was
/// written: the two instants as their epoch seconds, and the call length as
/// the milliseconds that passed, followed by its unit.
pub proof fn lemma_timing_headers_read_back(values: Map<Seq<char>, Seq<Seq<u8>>>, timing: CallTiming)
    ensures
        header_text(with_timing_headers(values, timing, 3), call_sent_header()) == Some(
            call_time_texts(timing).0,
        ),
        header_text(with_timing_headers(values, timing, 3), call_received_header()) == Some(
            call_time_texts(timing).1,
        ),
        call_length_text(with_timing_headers(values, timing, 3)) == Some(
            call_time_texts(timing).2 + " ms"@,
        ),
{
    let sent_text = signed_decimal_digits(timing.sent_at().timestamp() as int);
    let received_text = signed_decimal_digits(timing.received_at().timestamp() as int);
    let length_text = decimal_digits(timing.elapsed_ms() as nat);
    let sent = with_header(values, call_sent_header(), sent_text);
    let received = with_header(sent, call_received_header(), received_text);
    lemma_timing_header_names_differ();
    lemma_signed_decimal_digits_numeric(timing.sent_at().timestamp() as int);
    lemma_signed_decimal_digits_numeric(timing.received_at().timestamp() as int);
    lemma_decimal_digits_numeric(timing.elapsed_ms() as nat);
    lemma_numeric_text_visible(sent_text);
    lemma_numeric_text_visible(received_text);
    lemma_numeric_text_visible(length_text);
    lemma_header_reads_back(values, call_sent_header(), sent_text);
    lemma_header_reads_back(sent, call_received_header(), received_text);
    lemma_header_reads_back(received, call_length_header(), length_text);
    lemma_other_header_kept(sent, call_received_header(), received_text, call_sent_header());
    lemma_other_header_kept(received, call_length_header(), length_text, call_sent_header());
    lemma_other_header_kept(received, call_length_header(), length_text, call_received_header());
}

/// Once the timing headers are attached, each of them has the one value
/// that was written, and no older value beside it.
pub proof fn lemma_timing_headers_stand_alone(
    values: Map<Seq<char>, Seq<Seq<u8>>>,
    timing: CallTiming,
)
    ensures
        with_timing_headers(values, timing, 3)[header_key(call_sent_header())] == seq![
            encode_utf8(call_time_texts(timing).0),
        ],
        with_timing_headers(values, timing, 3)[header_key(call_received_header())] == seq![
            encode_utf8(call_time_texts(timing).1),
        ],
        with_timing_headers(values, timing, 3)[header_key(call_length_header())] == seq![
            encode_utf8(call_time_texts(timing).2),
        ],
{
    lemma_timing_header_names_differ();
}

/// Attaching the timing headers adds no other name and leaves every other
/// header as it was, with all its values.
pub proof fn lemma_timing_headers_keep_the_rest(
    values: Map<Seq<char>, Seq<Seq<u8>>>,
    timing: CallTiming,
    key: Seq<char>,
)
    requires
        key != header_key(call_sent_header()),
        key != header_key(call_received_header()),
        key != header_key(call_length_header()),
    ensures
        with_timing_headers(values, timing, 3).contains_key(key) == values.contains_key(key),
        with_timing_headers(values, timing, 3)[key] == values[key],
{
}

/// Decimal text is visible ASCII.
pub proof fn lemma_numeric_text_visible(text: Seq<char>)
    requires
        is_numeric_text(text),
    ensures
        visible_text(text),
{
    assert forall|i: int| 0 <= i < text.len() implies (' ' <= #[trigger] text[i] && text[i] <= '~'
        || text[i] == '\t') by {
        assert(crate::decimal::is_numeric_char(text[i]));
    }
}

/// The values of the three timing headers of a call.
pub fn call_time_values(timing: CallTiming) -> (values: (String, String, String))
    ensures
        (values.0@, values.1@, values.2@) == call_time_texts(timing),
{
    (
        signed_decimal_string(timing.sent_at().timestamp()),
        signed_decimal_string(timing.received_at().timestamp()),
        decimal_string(timing.duration_ms()),
    )
}

/// Attaches the timing of the call to the response, as three headers: when
/// the request was sent and when the response was received, both in epoch
/// seconds, and the milliseconds between the two.
///
/// A response with room for them takes all three. A header map that is
/// full may refuse a header: then the headers before it stand, the others
/// are left out, and the answer is `false`.
pub fn add_call_time_headers(response: &mut Response, start: UtcInstant, end: UtcInstant) -> (attached:
    bool)
    requires
        CallTiming::ordered(start, end),
    ensures
        has_room_for_timing(old(response)@.headers) ==> attached,
        attached ==> final(response)@ == old(response)@.with_headers(
            with_timing_headers(old(response)@.headers, CallTiming::timing_of(start, end), 3),
        ),
        !attached ==> exists|count: int|
            0 <= count < 3 && final(response)@ == old(response)@.with_headers(
                with_timing_headers(
                    old(response)@.headers,
                    CallTiming::timing_of(start, end),
                    count,
                ),
            ),
{
    let timing = CallTiming::new(start, end);
    let (sent, received, length) = call_time_values(timing);
    let ghost before = response@;
    proof {
        lemma_timing_header_names_plain();
        lemma_call_time_texts_visible(timing);
    }
    if !write_header(&mut response.headers, "X-CallSent-Timestamp", sent.as_str()) {
        assert(response@ == before.with_headers(with_timing_headers(before.headers, timing, 0)));
        return false;
    }
    if !write_header(&mut response.headers, "X-CallReceived-Timestamp", received.as_str()) {
        assert(response@ == before.with_headers(with_timing_headers(before.headers, timing, 1)));
        return false;
    }
    if !write_header(&mut response.headers, "X-CallLength-Milliseconds", length.as_str()) {
        assert(response@ == before.with_headers(with_timing_headers(before.headers, timing, 2)));
        return false;
    }
    assert(response@ == before.with_headers(with_timing_headers(before.headers, timing, 3)));
    true
}

/// How long the call took, as the call-length header tells it, with its
/// unit.
pub fn get_call_length(response: &Response) -> (length: Option<String>)
    ensures
        optional_text(length) == call_length_text(response@.headers),
{
    match read_header(&response.headers, "X-CallLength-Milliseconds") {
        Some(mut length) => {
            length.append(" ms");
            Some(length)
        },
        None => None,
    }
}

/// Whether `process_string_response` reports a response as a failure: its
/// status is outside 200 to 299, and the caller asked for failures.
pub open spec fn reported_as_failure(
    response: ResponseData,
    throw_exception_on_failure: bool,
) -> bool {
    !(200 <= response.status < 300) && throw_exception_on_failure
}

/// The text that `process_string_response` gives for a response that it
/// does not report as a failure: the body of a response that succeeded,
/// and the empty text for any other.
pub open spec fn string_response(response: ResponseData) -> Seq<char> {
    if 200 <= response.status < 300 {
        response.body_or_empty()
    } else {
        Seq::empty()
    }
}

/// The body of a response that succeeded.
///
/// A response with a status from 200 to 299 gives its body, empty where the
/// transport could not read it. Any other response is a failure if
/// `throw_exception_on_failure` says so: the failure holds the response,
/// with address, status and body, and has the status line as its message.
/// Otherwise such a response gives the empty text.
pub fn process_string_response(response: Response, throw_exception_on_failure: bool) -> (body:
    Result<String, http_rest_request_exception>)
    ensures
        body is Err <==> reported_as_failure(response@, throw_exception_on_failure),
        body is Ok ==> body->Ok_0@ == string_response(response@),
        body is Err ==> body->Err_0.response == Some(response) && body->Err_0.message@
            == status_line_text(response@.status as int),
{
    if response.status.is_success() {
        Ok(response.into_text())
    } else if throw_exception_on_failure {
        Err(http_rest_request_exception::with_response(response))
    } else {
        Ok(String::new())
    }
}

/// The text of the header `name`, where the response has it and its value
/// is visible ASCII.
pub fn get_header_value(response: &Response, name: &str) -> (value: Option<String>)
    ensures
        optional_text(value) == header_text(response@.headers, name@),
{
    read_header(&response.headers, name)
}

} // verus!
