//! MID 0217 - Relay function status.

use crate::protocol::field::{int_field, FieldBuilder};
use crate::protocol::ResponseData;
use vstd::prelude::*;

verus! {

/// MID 0217 data: a relay and whether it is active.
#[derive(Debug, Clone, Copy, PartialEq, Eq, Structural)]
pub struct RelayFunction {
    /// Relay number.
    pub relay_number: u16,
    /// Whether the relay is active.
    pub active: bool,
}

impl RelayFunction {
    /// The status of relay `relay_number`.
    pub fn new(relay_number: u16, active: bool) -> (r: Self)
        ensures
            r == (RelayFunction { relay_number, active }),
    {
        RelayFunction { relay_number, active }
    }
}

impl ResponseData for RelayFunction {
    /// Parameter 01, the relay number in three digits; parameter 02, 1 when
    /// active and 0 otherwise.
    open spec fn wire(&self) -> Seq<u8> {
        int_field(Some(1), self.relay_number as int, 3) + int_field(
            Some(2),
            if self.active { 1 } else { 0 },
            1,
        )
    }

    open spec fn encodable(&self) -> bool {
        true
    }

    fn serialize(&self) -> (r: Vec<u8>) {
        let active: i32 = if self.active { 1 } else { 0 };
        let r = FieldBuilder::new().add_int(Some(1), self.relay_number as i32, 3).add_int(
            Some(2),
            active,
            1,
        ).build();
        assert(r@ =~= self.wire());
        r
    }
}

} // verus!
