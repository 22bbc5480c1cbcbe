//! MID 0052 - Vehicle ID number.

use crate::protocol::field::{str_field, FieldBuilder};
use crate::protocol::ResponseData;
use vstd::prelude::*;

verus! {

/// MID 0052 data: the current vehicle ID.
#[derive(Debug, Clone)]
pub struct VehicleIdBroadcast {
    /// The vehicle ID number.
    pub vin_number: String,
}

impl VehicleIdBroadcast {
    /// The notice of vehicle ID `vin_number`.
    pub fn new(vin_number: String) -> (r: Self)
        ensures
            r.vin_number == vin_number,
    {
        VehicleIdBroadcast { vin_number }
    }
}

/// The MID 0052 data section (revision 1): the VIN, left-aligned and
/// space-padded to 25 characters, without a parameter number.
pub open spec fn vehicle_id_wire(vin: Seq<char>) -> Seq<u8> {
    str_field(None, vin, 25)
}

impl ResponseData for VehicleIdBroadcast {
    open spec fn wire(&self) -> Seq<u8> {
        vehicle_id_wire(self.vin_number@)
    }

    open spec fn encodable(&self) -> bool {
        true
    }

    fn serialize(&self) -> (r: Vec<u8>) {
        FieldBuilder::new().add_str(None, self.vin_number.as_str(), 25).build()
    }
}

} // verus!
