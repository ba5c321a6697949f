//! Power meter commands.
use vstd::prelude::*;
use crate::message::AcknowledgeDataMessage;

verus! {

pub const PM_CHANNEL_TYPE: u8 = 0x00;
pub const PM_DEVICE_TYPE: u8 = 0x0B;
pub const PM_FREQUENCY: u8 = 0x39;
pub const PM_EIGHT_HZ: u16 = 8182;
pub const PM_FOUR_HZ: u16 = 4091;

/// Asks the power meter on channel `channel` to calibrate itself.
pub fn manual_calibration(channel: u8) -> (r: AcknowledgeDataMessage)
    ensures
        r.0@ == seq![channel, 0x01u8, 0xAAu8, 0xFFu8, 0xFFu8, 0xFFu8, 0xFFu8, 0xFFu8, 0xFFu8],
{
    let page: [u8; 8] = [0x01, 0xAA, 0xFF, 0xFF, 0xFF, 0xFF, 0xFF, 0xFF];
    let r = AcknowledgeDataMessage::new(channel, page.as_slice());
    assert(r.0@ =~= seq![channel, 0x01u8, 0xAAu8, 0xFFu8, 0xFFu8, 0xFFu8, 0xFFu8, 0xFFu8, 0xFFu8]);
    r
}

} // verus!
