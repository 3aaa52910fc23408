//! The battery protocol of the SteelSeries Aerox 9, wired and wireless.
//!
//! The request is a report of two bytes: report number 0, then the
//! opcode. The response has two bytes as well, and the second one carries
//! the charging flag in its highest bit and the raw level in the rest.

use vstd::prelude::*;
use crate::mouse::{BatteryStatus, Mouse};

verus! {

/// Opcode of the battery request.
pub const OP_BATTERY_REQUEST: u8 = 0x92;

/// Number of bytes in a battery response.
pub const OP_BATTERY_RESPONSE_LEN: usize = 2;

/// Bit of the report byte that is set while the device charges.
pub const FLAG_BATTERY_CHARGING: u8 = 0x80;

/// Bit that a wireless device expects in the request opcode.
pub const FLAG_WIRELESS: u8 = 0x40;

/// How long to wait for a response, in milliseconds.
pub const READ_TIMEOUT_MS: i32 = 200;

/// Highest raw level that stands for a charge: level 1 is the empty
/// battery, and each level above it adds five percent.
pub const MAX_LEVEL: u8 = 21;

/// The raw level of a report byte: the byte without its charging bit.
pub open spec fn raw_level(data: u8) -> int {
    data as int % 128
}

/// The charging flag of a report byte: its highest bit.
pub open spec fn charging_flag(data: u8) -> bool {
    data >= 128
}

/// What a report byte means. Level 0 carries no data; levels 1 to 21 are
/// charges from 0 to 100 percent in steps of five; every higher level,
/// the all-ones level 127 with its 630 percent included, is no reading.
pub open spec fn decode(data: u8) -> Option<BatteryStatus> {
    let level = raw_level(data);
    if 1 <= level <= MAX_LEVEL as int {
        Some(BatteryStatus { is_charging: charging_flag(data), percent: ((level - 1) * 5) as u16 })
    } else {
        None
    }
}

/// Decodes the report byte of a battery response.
pub fn battery_status_from_response(data: u8) -> (status: Option<BatteryStatus>)
    ensures
        status == decode(data),
        status is Some <==> 1 <= raw_level(data) <= 21,
        status matches Some(s) ==> s.wf() && s.is_charging == charging_flag(data) && s.percent
            == (raw_level(data) - 1) * 5,
{
    let level: u8 = data & !FLAG_BATTERY_CHARGING;
    let charging: bool = data & FLAG_BATTERY_CHARGING != 0;
    assert(data & !0x80u8 == data % 128) by (bit_vector);
    assert((data & 0x80u8 != 0) == (data >= 128)) by (bit_vector);
    match (level as u16).checked_sub(1) {
        None => None,
        Some(steps) => {
            let percent: u16 = steps * 5;
            if percent == 630 || percent > 100 {
                None
            } else {
                Some(BatteryStatus { is_charging: charging, percent })
            }
        },
    }
}

/// The battery request of a device that is wireless or not.
pub open spec fn request_bytes(wireless: bool) -> Seq<u8> {
    seq![0u8, if wireless { 0xd2u8 } else { 0x92u8 }]
}

/// The meaning of a response: that of its second byte.
pub open spec fn response_reading(response: Seq<u8>) -> Option<BatteryStatus> {
    decode(response[1])
}

/// An Aerox 9 on its cable.
pub struct Wired<D> {
    device: D,
}

impl<D> Mouse<D> for Wired<D> {
    closed spec fn handle(&self) -> D {
        self.device
    }

    open spec fn request(&self) -> Seq<u8> {
        request_bytes(false)
    }

    open spec fn reading(&self, response: Seq<u8>) -> Option<BatteryStatus> {
        response_reading(response)
    }

    fn new(device: D) -> (mouse: Self) {
        Wired { device }
    }

    fn device(&self) -> (device: &D) {
        &self.device
    }

    fn battery_request(&self) -> (request: [u8; 2]) {
        [0x00, OP_BATTERY_REQUEST]
    }

    fn battery(&self, response: &[u8; 2]) -> (status: Option<BatteryStatus>) {
        battery_status_from_response(response[1])
    }
}

/// An Aerox 9 behind its wireless receiver.
pub struct Wireless<D> {
    device: D,
}

impl<D> Mouse<D> for Wireless<D> {
    closed spec fn handle(&self) -> D {
        self.device
    }

    open spec fn request(&self) -> Seq<u8> {
        request_bytes(true)
    }

    open spec fn reading(&self, response: Seq<u8>) -> Option<BatteryStatus> {
        response_reading(response)
    }

    fn new(device: D) -> (mouse: Self) {
        Wireless { device }
    }

    fn device(&self) -> (device: &D) {
        &self.device
    }

    fn battery_request(&self) -> (request: [u8; 2]) {
        let opcode: u8 = OP_BATTERY_REQUEST | FLAG_WIRELESS;
        assert(0x92u8 | 0x40u8 == 0xd2u8) by (bit_vector);
        [0x00, opcode]
    }

    fn battery(&self, response: &[u8; 2]) -> (status: Option<BatteryStatus>) {
        battery_status_from_response(response[1])
    }
}

} // verus!
