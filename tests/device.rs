use libant::device::{BatteryStatus, Manufacturer, Page0x50, Page0x51, Page0x52};

#[test]
fn battery_status_bits() {
    assert_eq!(BatteryStatus::from(0x10), BatteryStatus::New);
    assert_eq!(BatteryStatus::from(0x20), BatteryStatus::Good);
    assert_eq!(BatteryStatus::from(0x30), BatteryStatus::New);
    assert_eq!(BatteryStatus::from(0x40), BatteryStatus::Low);
    assert_eq!(BatteryStatus::from(0x50), BatteryStatus::New);
    assert_eq!(BatteryStatus::from(0x8F), BatteryStatus::Invalid);
}

#[test]
fn manufacturer_ids() {
    assert_eq!(Manufacturer::from(1), Manufacturer::Garmin);
    assert_eq!(Manufacturer::from(263), Manufacturer::Favero);
    assert_eq!(Manufacturer::from(268), Manufacturer::SRAM);
    assert_eq!(Manufacturer::from(2), Manufacturer::Undefined);
}

#[test]
fn common_pages() {
    let p50 = Page0x50([0x50, 0xFF, 0xFF, 3, 0x07, 0x01, 0x34, 0x12]);
    assert_eq!(p50.hardware_revision(), 3);
    assert_eq!(p50.manufacturer(), Manufacturer::Favero);
    assert_eq!(p50.model_number(), 0x1234);
    let p51 = Page0x51([0x51, 0xFF, 0xFF, 1, 0x78, 0x56, 0x34, 0x12]);
    assert_eq!(p51.serial_number(), 0x12345678);
    let p52 = Page0x52([0x52, 0xFF, 0, 0, 0, 0, 0x80, 0xA3]);
    assert_eq!(p52.battery_status(), BatteryStatus::Good);
    assert_eq!(p52.time_resolution(), 16);
    assert_eq!(p52.coarse_voltage(), 3);
    let p52 = Page0x52([0x52, 0xFF, 0, 0, 0, 0, 0, 0x1F]);
    assert_eq!(p52.time_resolution(), 2);
    assert_eq!(p52.coarse_voltage(), 0x0F);
    assert_eq!(p52.battery_status(), BatteryStatus::New);
}

use libant::device::hrm::HeartRateMonitor;
use libant::device::powermeter::manual_calibration;
use libant::device::weightscale::WeightScale;
use libant::message::Message;

#[test]
fn names() {
    assert_eq!(BatteryStatus::Okay.as_str(), "Ok");
    assert_eq!(BatteryStatus::Critical.as_str(), "Critical");
    assert_eq!(Manufacturer::WahooFitness.as_str(), "Wahoo Fitness");
    assert_eq!(Manufacturer::Undefined.as_str(), "Undefined");
    assert_eq!(Message::new(0x6F, &[0]).id_as_str(), "Startup (0x6F)");
    assert_eq!(Message::new(0x4E, &[]).id_as_str(), "Broadcast Data (0x4E)");
    assert_eq!(Message::new(0x42, &[]).id_as_str(), "Unknown message");
}

#[test]
fn heart_rate_monitor_pages() {
    let mut hrm = HeartRateMonitor::new();
    assert_eq!(hrm.heartrate(), 0);
    hrm.decode_broadcast_data(&[0x00, 0xFF, 0xFF, 0xFF, 0x34, 0x12, 7, 72]);
    assert_eq!(hrm.heartrate(), 72);
    assert_eq!(hrm.heartbeat_count(), 7);
    assert_eq!(hrm.last_heartbeat_event(), 0x1234);
    hrm.decode_broadcast_data(&[0x81, 0x01, 0x02, 0x03, 0, 0, 8, 73]);
    assert_eq!(hrm.operating_time(), 0x030201);
    assert_eq!(hrm.heartrate(), 73);
    hrm.decode_broadcast_data(&[0x02, 1, 0x39, 0x30, 0, 0, 9, 74]);
    assert_eq!(hrm.manufacturer(), Manufacturer::Garmin);
    assert_eq!(hrm.serial_number(), 12345);
    hrm.decode_broadcast_data(&[0x83, 4, 5, 6, 0, 0, 10, 75]);
    assert_eq!(hrm.hardware_version(), 4);
    assert_eq!(hrm.software_version(), 5);
    assert_eq!(hrm.model_number(), 6);
    hrm.decode_broadcast_data(&[0x07, 90, 128, 0x23, 0, 0, 11, 76]);
    assert_eq!(hrm.battery_level(), 90);
    assert_eq!(hrm.fractional_battery_voltage(), 128);
    assert_eq!(hrm.coarse_battery_voltage(), 3);
    assert_eq!(hrm.battery_status(), BatteryStatus::Good);
    // Unknown pages and payloads of the wrong length change nothing.
    hrm.decode_broadcast_data(&[0x08, 1, 1, 1, 1, 1, 1, 99]);
    hrm.decode_broadcast_data(&[0x00, 1, 1, 1, 1, 1, 1, 99, 0]);
    assert_eq!(hrm.heartrate(), 76);
}

#[test]
fn heart_rate_monitor_requests() {
    let hrm = HeartRateMonitor::new();
    let m = hrm.request_manufacturer_info(3);
    assert_eq!(m.0, [3, 0x46, 0xFF, 0xFF, 0xFF, 0xFF, 0x01, 0x02, 0x01]);
    let b = hrm.request_battery_status(1);
    assert_eq!(b.0, [1, 0x46, 0xFF, 0xFF, 0xFF, 0xFF, 0x01, 0x07, 0x01]);
    let c = HeartRateMonitor::channel_config();
    assert_eq!((c.device_type, c.frequency, c.period, c.timeout), (0x78, 0x39, 8070, 10));
}

#[test]
fn weight_scale_pages() {
    let mut ws = WeightScale::new();
    assert_eq!(ws.raw_weight(), 0);
    ws.decode_broadcast_data(&[0, 0x01, 0, 0, 0, 0, 0, 0x4C, 0x1D]);
    assert_eq!(ws.raw_weight(), 7500);
    ws.decode_broadcast_data(&[0, 0x01, 0, 0, 0, 0, 0, 0xFF, 0xFF]);
    ws.decode_broadcast_data(&[0, 0x02, 0, 0, 0, 0, 0, 0x01, 0x01]);
    ws.decode_broadcast_data(&[0, 0x01, 0, 0, 0, 0, 0, 0x01]);
    assert_eq!(ws.raw_weight(), 7500);
    let c = WeightScale::channel_config();
    assert_eq!((c.device_type, c.frequency, c.period, c.timeout), (0x77, 0x39, 8192, 10));
}

#[test]
fn power_meter_calibration_request() {
    let m = manual_calibration(4);
    assert_eq!(m.0, [4, 0x01, 0xAA, 0xFF, 0xFF, 0xFF, 0xFF, 0xFF, 0xFF]);
}
