//! MID 0100 - Multi-spindle result subscribe.

use crate::handler::data::CommandAccepted;
use crate::handler::{accepted_response, outcome_view, HandlerError, MidHandler};
use crate::protocol::text::{decimal_field_value, parse_decimal_field};
use crate::protocol::{Message, MessageView, Response, ResponseView};
use crate::state::DeviceState;
use crate::subscriptions::MultiSpindleResultSubscription;
use vstd::prelude::*;

verus! {

/// The parameters of a MID 0100 subscription.
#[derive(Debug, Clone, Copy, PartialEq, Eq)]
pub struct MultiSpindleResultSubscribeRequest {
    /// The result after which stored results are replayed (revisions 2 and 3).
    pub data_no_system: Option<u32>,
    /// Whether only results newer than the subscription are sent (revision 3).
    pub send_only_new_data: bool,
}

/// The request that a MID 0100 message carries. Revision 1 has no data.
/// Revision 2 has exactly ten bytes, the data number system as UTF-8 text
/// that reads as a `u32`. Revision 3 has exactly eleven: those ten, then
/// `0` or `1` for "send only new data". Anything else is invalid data, and
/// other revisions are not supported.
pub open spec fn subscribe_request(mid: u16, revision: u8, data: Seq<u8>) -> Result<
    MultiSpindleResultSubscribeRequest,
    HandlerError,
> {
    if revision == 1 {
        if data.len() == 0 {
            Ok(MultiSpindleResultSubscribeRequest { data_no_system: None, send_only_new_data: false })
        } else {
            Err(HandlerError::InvalidData(mid))
        }
    } else if revision == 2 {
        if data.len() != 10 {
            Err(HandlerError::InvalidData(mid))
        } else {
            match decimal_field_value(data, false, u32::MAX as int) {
                Some(v) => Ok(
                    MultiSpindleResultSubscribeRequest {
                        data_no_system: Some(v as u32),
                        send_only_new_data: false,
                    },
                ),
                None => Err(HandlerError::InvalidData(mid)),
            }
        }
    } else if revision == 3 {
        if data.len() != 11 {
            Err(HandlerError::InvalidData(mid))
        } else {
            match decimal_field_value(data.subrange(0, 10), false, u32::MAX as int) {
                Some(v) => if data[10] == 48u8 || data[10] == 49u8 {
                    Ok(
                        MultiSpindleResultSubscribeRequest {
                            data_no_system: Some(v as u32),
                            send_only_new_data: data[10] == 49u8,
                        },
                    )
                } else {
                    Err(HandlerError::InvalidData(mid))
                },
                None => Err(HandlerError::InvalidData(mid)),
            }
        }
    } else {
        Err(HandlerError::RevisionUnsupported { mid, revision })
    }
}

/// MID 0100 accepts a well-formed request and refuses any other; the state
/// is left alone either way.
pub open spec fn multi_spindle_result_subscribe_outcome(
    message: MessageView,
    before: DeviceState,
    after: DeviceState,
    outcome: Result<ResponseView, HandlerError>,
) -> bool {
    &&& outcome == match subscribe_request(message.mid, message.revision, message.data) {
        Ok(_) => Ok::<ResponseView, HandlerError>(accepted_response(100, message.revision)),
        Err(e) => Err(e),
    }
    &&& after == before
}

/// Reads the parameters of a MID 0100 request.
pub fn parse_subscribe_request(message: &Message) -> (r: Result<
    MultiSpindleResultSubscribeRequest,
    HandlerError,
>)
    ensures
        r == subscribe_request(message.mid, message.revision, message.data@),
{
    let mid = message.mid;
    match message.revision {
        1 => {
            if message.data.len() == 0 {
                Ok(MultiSpindleResultSubscribeRequest { data_no_system: None, send_only_new_data: false })
            } else {
                Err(HandlerError::InvalidData(mid))
            }
        },
        2 => {
            if message.data.len() != 10 {
                return Err(HandlerError::InvalidData(mid));
            }
            match parse_decimal_field(message.data.as_slice(), false, u32::MAX) {
                Some(v) => Ok(
                    MultiSpindleResultSubscribeRequest {
                        data_no_system: Some(v),
                        send_only_new_data: false,
                    },
                ),
                None => Err(HandlerError::InvalidData(mid)),
            }
        },
        3 => {
            if message.data.len() != 11 {
                return Err(HandlerError::InvalidData(mid));
            }
            let (number, rest) = message.data.as_slice().split_at(10);
            let data_no_system = match parse_decimal_field(number, false, u32::MAX) {
                Some(v) => v,
                None => {
                    return Err(HandlerError::InvalidData(mid));
                },
            };
            let flag = message.data[10];
            if flag == 48 {
                Ok(MultiSpindleResultSubscribeRequest { data_no_system: Some(data_no_system), send_only_new_data: false })
            } else if flag == 49 {
                Ok(MultiSpindleResultSubscribeRequest { data_no_system: Some(data_no_system), send_only_new_data: true })
            } else {
                Err(HandlerError::InvalidData(mid))
            }
        },
        _ => Err(HandlerError::RevisionUnsupported { mid, revision: message.revision }),
    }
}

/// The subscription that `request` sets up, given the newest stored result.
pub fn into_subscription(
    revision: u8,
    request: MultiSpindleResultSubscribeRequest,
    latest_result_id: Option<u32>,
) -> (r: MultiSpindleResultSubscription)
    ensures
        r == (MultiSpindleResultSubscription {
            revision,
            data_no_system: request.data_no_system,
            send_only_new_data: request.send_only_new_data,
            latest_result_id,
        }),
{
    MultiSpindleResultSubscription::new(
        revision,
        request.data_no_system,
        request.send_only_new_data,
        latest_result_id,
    )
}

/// MID 0100: subscribes to multi-spindle results; the connection records
/// the subscription, the handler checks the request and accepts it.
pub struct MultiSpindleResultSubscribeHandler;

impl MidHandler for MultiSpindleResultSubscribeHandler {
    fn handle(&self, message: &Message, state: &mut DeviceState) -> (r: Result<Response, HandlerError>)
        ensures
            multi_spindle_result_subscribe_outcome(
                message@,
                *old(state),
                *final(state),
                outcome_view(r),
            ),
    {
        match parse_subscribe_request(message) {
            Ok(_) => Ok(Response::from_data(5, message.revision, CommandAccepted::with_mid(100))),
            Err(e) => Err(e),
        }
    }
}

} // verus!
