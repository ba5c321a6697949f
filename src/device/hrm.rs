//! Heart rate monitor. Every data page carries the heart rate; pages 1, 2, 3
//! and 7 also carry operating time, manufacturer, product and battery data.
//! Legacy devices send page 0 only; newer ones toggle the top bit of the page
//! number every four pages.
use vstd::prelude::*;
use super::{battery_status_of, manufacturer_of, BatteryStatus, Manufacturer};
use crate::channel::Config;
use crate::message::{bytes_to_u16, bytes_to_u32, le_u16, le_u32, AcknowledgeDataMessage};

verus! {

pub const HRM_DEVICE_TYPE: u8 = 0x78;
pub const HRM_FREQUENCY: u8 = 0x39;
pub const HRM_PERIOD: u16 = 8070;
pub const HRM_TIMEOUT: u8 = 10;
pub const COMMON_DATA_PAGE_70: u8 = 0x46;

/// What a heart rate monitor has reported.
pub struct HeartRateMonitorView {
    pub heartrate: u8,
    /// Time of the last heartbeat, in the units that the monitor sends.
    pub last_heartbeat_event: u16,
    pub heartbeat_count: u8,
    pub operating_time: u32,
    pub manufacturer_id: u8,
    pub serial_number: u16,
    pub hardware_version: u8,
    pub software_version: u8,
    pub model_number: u8,
    pub battery_level: u8,
    pub fractional_battery_voltage: u8,
    pub descriptive_bit_field: u8,
}

/// The monitor after decoding the eight bytes `d` of a data page: pages
/// other than 0 to 7 (with or without the top bit) change nothing; the others
/// update their own fields and the heart beat fields.
pub open spec fn decode_page(h: HeartRateMonitorView, d: Seq<u8>) -> HeartRateMonitorView {
    let page = d[0] % 128;
    if d.len() != 8 || page > 7 {
        h
    } else {
        let h1 = if page == 1 {
            HeartRateMonitorView { operating_time: le_u32(d.subrange(1, 4)), ..h }
        } else if page == 2 {
            HeartRateMonitorView {
                manufacturer_id: d[1],
                serial_number: le_u16(d.subrange(2, 4)),
                ..h
            }
        } else if page == 3 {
            HeartRateMonitorView {
                hardware_version: d[1],
                software_version: d[2],
                model_number: d[3],
                ..h
            }
        } else if page == 7 {
            HeartRateMonitorView {
                battery_level: d[1],
                fractional_battery_voltage: d[2],
                descriptive_bit_field: d[3],
                ..h
            }
        } else {
            h
        };
        HeartRateMonitorView {
            last_heartbeat_event: le_u16(d.subrange(4, 6)),
            heartbeat_count: d[6],
            heartrate: d[7],
            ..h1
        }
    }
}

/// The acknowledged data page 70 asking the monitor to send page `page_number`.
pub open spec fn request_page(page_number: u8) -> Seq<u8> {
    seq![COMMON_DATA_PAGE_70, 0xFFu8, 0xFFu8, 0xFFu8, 0xFFu8, 0x01u8, page_number, 0x01u8]
}

pub struct HeartRateMonitor {
    heartrate: u8,
    last_heartbeat_event: u16,
    heartbeat_count: u8,
    operating_time: u32,
    manufacturer_id: u8,
    serial_number: u16,
    hardware_version: u8,
    software_version: u8,
    model_number: u8,
    battery_level: u8,
    fractional_battery_voltage: u8,
    descriptive_bit_field: u8,
}

impl View for HeartRateMonitor {
    type V = HeartRateMonitorView;

    closed spec fn view(&self) -> HeartRateMonitorView {
        HeartRateMonitorView {
            heartrate: self.heartrate,
            last_heartbeat_event: self.last_heartbeat_event,
            heartbeat_count: self.heartbeat_count,
            operating_time: self.operating_time,
            manufacturer_id: self.manufacturer_id,
            serial_number: self.serial_number,
            hardware_version: self.hardware_version,
            software_version: self.software_version,
            model_number: self.model_number,
            battery_level: self.battery_level,
            fractional_battery_voltage: self.fractional_battery_voltage,
            descriptive_bit_field: self.descriptive_bit_field,
        }
    }
}

impl HeartRateMonitor {
    /// A monitor that has reported nothing yet: every field zero.
    pub fn new() -> (r: Self)
        ensures
            r@ == (HeartRateMonitorView {
                heartrate: 0,
                last_heartbeat_event: 0,
                heartbeat_count: 0,
                operating_time: 0,
                manufacturer_id: 0,
                serial_number: 0,
                hardware_version: 0,
                software_version: 0,
                model_number: 0,
                battery_level: 0,
                fractional_battery_voltage: 0,
                descriptive_bit_field: 0,
            }),
    {
        HeartRateMonitor {
            heartrate: 0,
            last_heartbeat_event: 0,
            heartbeat_count: 0,
            operating_time: 0,
            manufacturer_id: 0,
            serial_number: 0,
            hardware_version: 0,
            software_version: 0,
            model_number: 0,
            battery_level: 0,
            fractional_battery_voltage: 0,
            descriptive_bit_field: 0,
        }
    }

    pub fn channel_config() -> (r: Config)
        ensures
            r == (Config {
                device_type: HRM_DEVICE_TYPE,
                frequency: HRM_FREQUENCY,
                period: HRM_PERIOD,
                timeout: HRM_TIMEOUT,
                ..Config::spec_new()
            }),
    {
        Config::new().device_type(HRM_DEVICE_TYPE).frequency(HRM_FREQUENCY).period(
            HRM_PERIOD,
        ).timeout(HRM_TIMEOUT)
    }

    /// Heart rate in beats per minute.
    pub fn heartrate(&self) -> (r: u8)
        ensures
            r == self@.heartrate,
    {
        self.heartrate
    }

    /// Heart rate monitors send a one-byte manufacturer id.
    pub fn manufacturer(&self) -> (r: Manufacturer)
        ensures
            r == manufacturer_of(self@.manufacturer_id as u16),
    {
        Manufacturer::from(self.manufacturer_id as u16)
    }

    pub fn serial_number(&self) -> (r: u16)
        ensures
            r == self@.serial_number,
    {
        self.serial_number
    }

    pub fn hardware_version(&self) -> (r: u8)
        ensures
            r == self@.hardware_version,
    {
        self.hardware_version
    }

    pub fn software_version(&self) -> (r: u8)
        ensures
            r == self@.software_version,
    {
        self.software_version
    }

    pub fn model_number(&self) -> (r: u8)
        ensures
            r == self@.model_number,
    {
        self.model_number
    }

    /// Battery level in percent; 0xFF when not given.
    pub fn battery_level(&self) -> (r: u8)
        ensures
            r == self@.battery_level,
    {
        self.battery_level
    }

    /// Fractional battery voltage in 1/256 V.
    pub fn fractional_battery_voltage(&self) -> (r: u8)
        ensures
            r == self@.fractional_battery_voltage,
    {
        self.fractional_battery_voltage
    }

    /// Time of the last heartbeat, in the units that the monitor sends.
    pub fn last_heartbeat_event(&self) -> (r: u16)
        ensures
            r == self@.last_heartbeat_event,
    {
        self.last_heartbeat_event
    }

    pub fn heartbeat_count(&self) -> (r: u8)
        ensures
            r == self@.heartbeat_count,
    {
        self.heartbeat_count
    }

    /// Operating time in units of 2 s.
    pub fn operating_time(&self) -> (r: u32)
        ensures
            r == self@.operating_time,
    {
        self.operating_time
    }

    pub fn coarse_battery_voltage(&self) -> (r: u8)
        ensures
            r == self@.descriptive_bit_field & 0x0F,
    {
        self.descriptive_bit_field & 0x0F
    }

    pub fn battery_status(&self) -> (r: BatteryStatus)
        ensures
            r == battery_status_of(self@.descriptive_bit_field),
    {
        BatteryStatus::from(self.descriptive_bit_field)
    }

    /// Decodes a data page received from the monitor.
    pub fn decode_broadcast_data(&mut self, data: &[u8])
        ensures
            final(self)@ == decode_page(old(self)@, data@),
    {
        if data.len() == 8 {
            match data[0] {
                0x00 | 0x80 => {},
                0x01 | 0x81 => {
                    self.operating_time = bytes_to_u32(vstd::slice::slice_subrange(data, 1, 4))
                },
                0x02 | 0x82 => {
                    self.manufacturer_id = data[1];
                    self.serial_number = bytes_to_u16(vstd::slice::slice_subrange(data, 2, 4));
                },
                0x03 | 0x83 => {
                    self.hardware_version = data[1];
                    self.software_version = data[2];
                    self.model_number = data[3];
                },
                0x04 | 0x84 => {},
                0x05 | 0x85 => {},
                0x06 | 0x86 => {},
                0x07 | 0x87 => {
                    self.battery_level = data[1];
                    self.fractional_battery_voltage = data[2];
                    self.descriptive_bit_field = data[3];
                },
                _ => return ,
            }
            self.last_heartbeat_event = bytes_to_u16(vstd::slice::slice_subrange(data, 4, 6));
            self.heartbeat_count = data[6];
            self.heartrate = data[7];
        }
    }

    /// Asks the monitor, on channel `channel_number`, for its manufacturer page.
    pub fn request_manufacturer_info(&self, channel_number: u8) -> (r: AcknowledgeDataMessage)
        ensures
            r.0@ == seq![channel_number].add(request_page(0x02)),
    {
        let page = self.request_data_page(0x02);
        AcknowledgeDataMessage::new(channel_number, page.as_slice())
    }

    /// Asks the monitor, on channel `channel_number`, for its battery page.
    pub fn request_battery_status(&self, channel_number: u8) -> (r: AcknowledgeDataMessage)
        ensures
            r.0@ == seq![channel_number].add(request_page(0x07)),
    {
        let page = self.request_data_page(0x07);
        AcknowledgeDataMessage::new(channel_number, page.as_slice())
    }

    fn request_data_page(&self, page_number: u8) -> (r: [u8; 8])
        ensures
            r@ == request_page(page_number),
    {
        let r: [u8; 8] = [COMMON_DATA_PAGE_70, 0xFF, 0xFF, 0xFF, 0xFF, 0x01, page_number, 0x01];
        assert(r@ =~= request_page(page_number));
        r
    }
}

} // verus!
