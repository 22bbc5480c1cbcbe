//! MID 0005 - Command accepted.

use crate::protocol::text::signed_text;
use crate::protocol::field::FieldBuilder;
use crate::protocol::ResponseData;
use vstd::prelude::*;

verus! {

/// MID 0005 data: the MID of the accepted request.
#[derive(Debug, Clone, Copy, PartialEq, Eq, Structural)]
pub struct CommandAccepted {
    /// The accepted MID.
    pub mid: u16,
}

/// The MID 0005 data section for accepting `mid`: the MID in four digits.
pub open spec fn accepted_wire(mid: u16) -> Seq<u8> {
    signed_text(mid as int, 4)
}

impl CommandAccepted {
    /// Acceptance of `mid`.
    pub fn with_mid(mid: u16) -> (r: Self)
        ensures
            r.mid == mid,
    {
        CommandAccepted { mid }
    }
}

impl ResponseData for CommandAccepted {
    open spec fn wire(&self) -> Seq<u8> {
        accepted_wire(self.mid)
    }

    open spec fn encodable(&self) -> bool {
        true
    }

    fn serialize(&self) -> (r: Vec<u8>) {
        let r = FieldBuilder::new().add_int(None, self.mid as i32, 4).build();
        assert(r@ =~= accepted_wire(self.mid));
        r
    }
}

} // verus!
