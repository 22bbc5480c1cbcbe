//! MID 0038 - Job selection.

use crate::handler::data::CommandAccepted;
use crate::handler::{accepted_response, outcome_view, HandlerError, MidHandler};
use crate::protocol::parser::{all_digit_bytes, digit_bytes_value, read_digits};
use crate::protocol::{Message, MessageView, Response, ResponseView};
use crate::state::DeviceState;
use vstd::prelude::*;

verus! {

/// The job ID that a MID 0038 request carries: two digits in revision 1,
/// four in revision 2; other revisions are not supported, and data of
/// another length or with a byte that is not a digit is invalid.
pub open spec fn job_request(mid: u16, revision: u8, data: Seq<u8>) -> Result<u32, HandlerError> {
    if revision == 1 || revision == 2 {
        let expected: int = if revision == 1 {
            2
        } else {
            4
        };
        if data.len() != expected || !all_digit_bytes(data) {
            Err(HandlerError::InvalidData(mid))
        } else {
            Ok(digit_bytes_value(data) as u32)
        }
    } else {
        Err(HandlerError::RevisionUnsupported { mid, revision })
    }
}

/// MID 0038 selects the job that the request carries and accepts; a
/// refused request leaves the state alone.
pub open spec fn job_select_outcome(
    message: MessageView,
    before: DeviceState,
    after: DeviceState,
    outcome: Result<ResponseView, HandlerError>,
) -> bool {
    match job_request(message.mid, message.revision, message.data) {
        Ok(job_id) => outcome == Ok::<ResponseView, HandlerError>(
            accepted_response(38, message.revision),
        ) && after == (DeviceState { current_job_id: Some(job_id), ..before }),
        Err(e) => outcome == Err::<ResponseView, HandlerError>(e) && after == before,
    }
}

/// Reads the job ID of a MID 0038 request.
pub fn parse_job_id(message: &Message) -> (r: Result<u32, HandlerError>)
    ensures
        r == job_request(message.mid, message.revision, message.data@),
{
    let expected_len: usize = match message.revision {
        1 => 2,
        2 => 4,
        _ => {
            return Err(
                HandlerError::RevisionUnsupported { mid: message.mid, revision: message.revision },
            );
        },
    };
    if message.data.len() != expected_len {
        return Err(HandlerError::InvalidData(message.mid));
    }
    assert(message.data@.subrange(0, expected_len as int) =~= message.data@);
    match read_digits(message.data.as_slice(), 0, expected_len) {
        Some(v) => Ok(v as u32),
        None => Err(HandlerError::InvalidData(message.mid)),
    }
}

/// MID 0038: selects the job for subsequent tightenings.
pub struct JobSelectHandler;

impl JobSelectHandler {
    /// The handler; the device state it works on is handed to each call.
    pub fn new() -> (r: Self) {
        JobSelectHandler
    }
}

impl MidHandler for JobSelectHandler {
    fn handle(&self, message: &Message, state: &mut DeviceState) -> (r: Result<Response, HandlerError>)
        ensures
            job_select_outcome(message@, *old(state), *final(state), outcome_view(r)),
    {
        match parse_job_id(message) {
            Ok(job_id) => {
                state.set_job_id(job_id);
                Ok(Response::from_data(5, message.revision, CommandAccepted::with_mid(38)))
            },
            Err(e) => Err(e),
        }
    }
}

} // verus!
