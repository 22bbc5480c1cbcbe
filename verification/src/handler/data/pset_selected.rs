//! MID 0015 - Parameter set selected.

use crate::protocol::field::{int_field, str_field, FieldBuilder};
use crate::protocol::ResponseData;
use vstd::prelude::*;

verus! {

/// MID 0015 data: the selected parameter set and when its settings last changed.
#[derive(Debug, Clone)]
pub struct PsetSelected {
    /// ID of the selected parameter set.
    pub pset_id: u32,
    /// Date and time of the last change in the parameter set's settings.
    pub last_change_timestamp: String,
}

impl PsetSelected {
    /// A parameter set selection notice.
    pub fn new(pset_id: u32, last_change_timestamp: String) -> (r: Self)
        ensures
            r.pset_id == pset_id,
            r.last_change_timestamp == last_change_timestamp,
    {
        PsetSelected { pset_id, last_change_timestamp }
    }
}

impl ResponseData for PsetSelected {
    /// The parameter set ID in three digits, then the 19-character timestamp,
    /// both without parameter numbers.
    open spec fn wire(&self) -> Seq<u8> {
        int_field(None, self.pset_id as i32 as int, 3) + str_field(
            None,
            self.last_change_timestamp@,
            19,
        )
    }

    open spec fn encodable(&self) -> bool {
        true
    }

    fn serialize(&self) -> (r: Vec<u8>) {
        #[verifier::truncate]
        let id = self.pset_id as i32;
        let r = FieldBuilder::new().add_int(None, id, 3).add_str(
            None,
            self.last_change_timestamp.as_str(),
            19,
        ).build();
        assert(r@ =~= self.wire());
        r
    }
}

impl Default for PsetSelected {
    fn default() -> (r: Self)
        ensures
            r.pset_id == 1,
            r.last_change_timestamp@ == "1970-01-01:00:00:00"@,
    {
        Self::new(1, String::from_str("1970-01-01:00:00:00"))
    }
}

} // verus!
