//! MID 0004 - Command error.

use crate::protocol::field::FieldBuilder;
use crate::protocol::text::signed_text;
use crate::protocol::ResponseData;
use vstd::prelude::*;

verus! {

/// Open Protocol error code "Command failed".
pub const ERROR_COMMAND_FAILED: u8 = 79;

/// Open Protocol error code "Invalid data".
pub const ERROR_INVALID_DATA: u8 = 1;

/// Open Protocol error code "MID revision unsupported".
pub const ERROR_REVISION_UNSUPPORTED: u8 = 97;

/// MID 0004 data: the MID of the failed request and why it failed.
#[derive(Debug, Clone, Copy, PartialEq, Eq, Structural)]
pub struct ErrorResponse {
    /// The MID of the failed request.
    pub failed_mid: u16,
    /// The Open Protocol error code.
    pub error_code: u8,
}

/// The MID 0004 data section: the failed MID in four digits, then the
/// error code in two.
pub open spec fn error_wire(failed_mid: u16, error_code: u8) -> Seq<u8> {
    signed_text(failed_mid as int, 4) + signed_text(error_code as int, 2)
}

impl ErrorResponse {
    /// A request for `mid` failed.
    pub fn generic(mid: u16) -> (r: Self)
        ensures
            r == (ErrorResponse { failed_mid: mid, error_code: ERROR_COMMAND_FAILED }),
    {
        ErrorResponse { failed_mid: mid, error_code: ERROR_COMMAND_FAILED }
    }

    /// A request for `mid` asked for a revision that is not supported.
    pub fn revision_unsupported(mid: u16) -> (r: Self)
        ensures
            r == (ErrorResponse { failed_mid: mid, error_code: ERROR_REVISION_UNSUPPORTED }),
    {
        ErrorResponse { failed_mid: mid, error_code: ERROR_REVISION_UNSUPPORTED }
    }

    /// A request for `mid` carried data that could not be used.
    pub fn invalid_data(mid: u16) -> (r: Self)
        ensures
            r == (ErrorResponse { failed_mid: mid, error_code: ERROR_INVALID_DATA }),
    {
        ErrorResponse { failed_mid: mid, error_code: ERROR_INVALID_DATA }
    }
}

impl ResponseData for ErrorResponse {
    open spec fn wire(&self) -> Seq<u8> {
        error_wire(self.failed_mid, self.error_code)
    }

    open spec fn encodable(&self) -> bool {
        true
    }

    fn serialize(&self) -> (r: Vec<u8>) {
        let r = FieldBuilder::new().add_int(None, self.failed_mid as i32, 4).add_int(
            None,
            self.error_code as i32,
            2,
        ).build();
        assert(r@ =~= error_wire(self.failed_mid, self.error_code));
        r
    }
}

} // verus!
