//! Weight scale. Page 1 carries the weight in hundredths of a kilogram.
use vstd::prelude::*;
use crate::channel::Config;
use crate::message::{bytes_to_u16, le_u16};

verus! {

pub const WS_DEVICE_TYPE: u8 = 0x77;
pub const WS_FREQUENCY: u8 = 0x39;
pub const WS_PERIOD: u16 = 8192;
pub const WS_TIMEOUT: u8 = 10;

/// The weight after decoding the broadcast payload `d` (channel byte and
/// eight data bytes): page 1 with a valid weight replaces it.
pub open spec fn decode_weight(weight: u16, d: Seq<u8>) -> u16 {
    if d.len() == 9 && d[1] == 0x01 && d[8] != 0xFF {
        le_u16(d.subrange(7, 9))
    } else {
        weight
    }
}

pub struct WeightScale {
    /// Hundredths of a kilogram.
    weight: u16,
}

impl View for WeightScale {
    type V = u16;

    closed spec fn view(&self) -> u16 {
        self.weight
    }
}

impl WeightScale {
    pub fn new() -> (r: Self)
        ensures
            r@ == 0,
    {
        Self { weight: 0 }
    }

    pub fn channel_config() -> (r: Config)
        ensures
            r == (Config {
                device_type: WS_DEVICE_TYPE,
                frequency: WS_FREQUENCY,
                period: WS_PERIOD,
                timeout: WS_TIMEOUT,
                ..Config::spec_new()
            }),
    {
        Config::new().device_type(WS_DEVICE_TYPE).frequency(WS_FREQUENCY).period(WS_PERIOD).timeout(
            WS_TIMEOUT,
        )
    }

    /// Weight in hundredths of a kilogram.
    pub fn raw_weight(&self) -> (r: u16)
        ensures
            r == self@,
    {
        self.weight
    }

    /// Decodes a broadcast payload from the scale: the channel byte followed
    /// by the eight bytes of a data page.
    pub fn decode_broadcast_data(&mut self, data: &[u8])
        ensures
            final(self)@ == decode_weight(old(self)@, data@),
    {
        if data.len() == 9 {
            if data[1] == 0x01 && data[8] != 0xFF {
                self.weight = bytes_to_u16(vstd::slice::slice_subrange(data, 7, 9));
            }
        }
    }
}

} // verus!
