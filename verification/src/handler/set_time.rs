//! MID 0082 - Set time.

use crate::handler::data::CommandAccepted;
use crate::handler::{accepted_response, outcome_view, HandlerError, MidHandler};
use crate::protocol::text::{trim, trim_str, utf8_text};
use crate::protocol::{Message, MessageView, Response, ResponseView};
use crate::state::{controller_time_set, DeviceState};
use vstd::prelude::*;
use vstd::utf8::*;

verus! {

/// `chrono::format::ParseError`, why a date and time could not be read.
#[verifier::external_type_specification]
#[verifier::external_body]
pub struct ExParseError(chrono::format::ParseError);

/// Whether `chrono::NaiveDateTime::parse_from_str(text, pattern)` succeeds.
pub uninterp spec fn datetime_parses(text: Seq<char>, pattern: Seq<char>) -> bool;

/// `chrono::NaiveDateTime::parse_from_str`: reads the date and time that
/// `text` spells in `pattern`. Whether it succeeds is a function of the two
/// texts alone and is named by `datetime_parses`; the date and time it
/// yields is opaque here, and nothing is stated of it.
#[verifier::external_body]
fn parse_datetime(text: &str, pattern: &str) -> (r: Result<
    chrono::NaiveDateTime,
    chrono::format::ParseError,
>)
    ensures
        r is Ok <==> datetime_parses(text@, pattern@),
{
    chrono::NaiveDateTime::parse_from_str(text, pattern)
}

/// The pattern of protocol timestamps, `YYYY-MM-DD:HH:MM:SS`.
pub open spec fn protocol_time_pattern() -> Seq<char> {
    "%Y-%m-%d:%H:%M:%S"@
}

/// Whether a MID 0082 data section sets the time: it is UTF-8 text that,
/// trimmed of white space, reads as a date and time in the protocol pattern.
pub open spec fn time_request_valid(data: Seq<u8>) -> bool {
    valid_utf8(data) && datetime_parses(trim(decode_utf8(data)), protocol_time_pattern())
}

/// MID 0082 accepts a valid time and sets the controller clock from it;
/// anything else is invalid data and leaves the state alone.
pub open spec fn set_time_outcome(
    message: MessageView,
    before: DeviceState,
    after: DeviceState,
    outcome: Result<ResponseView, HandlerError>,
) -> bool {
    if time_request_valid(message.data) {
        &&& outcome == Ok::<ResponseView, HandlerError>(accepted_response(82, message.revision))
        &&& controller_time_set(before, after)
    } else {
        outcome == Err::<ResponseView, HandlerError>(HandlerError::InvalidData(82)) && after == before
    }
}

/// MID 0082: sets the controller clock.
pub struct SetTimeHandler;

impl SetTimeHandler {
    /// The handler; the device state it works on is handed to each call.
    pub fn new() -> (r: Self) {
        SetTimeHandler
    }
}

impl MidHandler for SetTimeHandler {
    fn handle(&self, message: &Message, state: &mut DeviceState) -> (r: Result<Response, HandlerError>)
        ensures
            set_time_outcome(message@, *old(state), *final(state), outcome_view(r)),
    {
        let text = match utf8_text(message.data.as_slice()) {
            Some(t) => t,
            None => {
                return Err(HandlerError::InvalidData(82));
            },
        };
        let pattern = "%Y-%m-%d:%H:%M:%S";
        proof {
            reveal_strlit("%Y-%m-%d:%H:%M:%S");
        }
        match parse_datetime(trim_str(text), pattern) {
            Ok(timestamp) => {
                state.set_controller_time(timestamp);
                Ok(Response::from_data(5, message.revision, CommandAccepted::with_mid(82)))
            },
            Err(_) => Err(HandlerError::InvalidData(82)),
        }
    }
}

} // verus!
