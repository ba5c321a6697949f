//! Data pages common to the device profiles: manufacturer, product and
//! battery information.
use vstd::prelude::*;

pub mod hrm;
pub mod powermeter;
pub mod weightscale;
use crate::message::{bytes_to_u16, bytes_to_u32, le_u16, le_u32};

verus! {

/// Battery state reported in the descriptive bit field of a battery page.
#[derive(Clone, Copy, Debug, PartialEq, Eq)]
pub enum BatteryStatus {
    New,
    Good,
    Okay,
    Low,
    Critical,
    Invalid,
}

/// The status for a descriptive bit field: the first of bits 4, 5 and 6 that
/// is set decides, and without any of them the field is invalid.
pub open spec fn battery_status_of(value: u8) -> BatteryStatus {
    if value & 0x10 == 0x10 {
        BatteryStatus::New
    } else if value & 0x20 == 0x20 {
        BatteryStatus::Good
    } else if value & 0x40 == 0x40 {
        BatteryStatus::Low
    } else {
        BatteryStatus::Invalid
    }
}

impl BatteryStatus {
    pub fn from(value: u8) -> (r: Self)
        ensures
            r == battery_status_of(value),
    {
        if value & 0x10 == 0x10 {
            return Self::New;
        }
        if value & 0x20 == 0x20 {
            return Self::Good;
        }
        assert(value & 0x30 != 0x30) by (bit_vector)
            requires
                value & 0x10 != 0x10,
        ;
        if value & 0x30 == 0x30 {
            return Self::Okay;
        }
        if value & 0x40 == 0x40 {
            return Self::Low;
        }
        assert(value & 0x50 != 0x50) by (bit_vector)
            requires
                value & 0x10 != 0x10,
        ;
        if value & 0x50 == 0x50 {
            return Self::Critical;
        }
        Self::Invalid
    }

    /// The status as a word.
    pub fn as_str(&self) -> (r: &'static str)
        ensures
            r@ == battery_status_name(*self)@,
    {
        match self {
            Self::New => "New",
            Self::Good => "Good",
            Self::Okay => "Ok",
            Self::Low => "Low",
            Self::Critical => "Critical",
            Self::Invalid => "Invalid",
        }
    }
}

pub open spec fn battery_status_name(s: BatteryStatus) -> &'static str {
    match s {
        BatteryStatus::New => "New",
        BatteryStatus::Good => "Good",
        BatteryStatus::Okay => "Ok",
        BatteryStatus::Low => "Low",
        BatteryStatus::Critical => "Critical",
        BatteryStatus::Invalid => "Invalid",
    }
}

/// Manufacturer, from the 16-bit id that the device sends.
#[derive(Clone, Copy, Debug, PartialEq, Eq)]
pub enum Manufacturer {
    Garmin,
    SRM,
    Quarq,
    Saxonar,
    WahooFitness,
    Shimano,
    Rotor,
    StagesCycling,
    Campagnolo,
    Favero,
    SRAM,
    Undefined,
}

pub open spec fn manufacturer_of(value: u16) -> Manufacturer {
    if value == 1 {
        Manufacturer::Garmin
    } else if value == 6 {
        Manufacturer::SRM
    } else if value == 7 {
        Manufacturer::Quarq
    } else if value == 29 {
        Manufacturer::Saxonar
    } else if value == 32 {
        Manufacturer::WahooFitness
    } else if value == 41 {
        Manufacturer::Shimano
    } else if value == 60 {
        Manufacturer::Rotor
    } else if value == 69 {
        Manufacturer::StagesCycling
    } else if value == 100 {
        Manufacturer::Campagnolo
    } else if value == 263 {
        Manufacturer::Favero
    } else if value == 268 {
        Manufacturer::SRAM
    } else {
        Manufacturer::Undefined
    }
}

impl Manufacturer {
    pub fn from(value: u16) -> (r: Self)
        ensures
            r == manufacturer_of(value),
    {
        match value {
            1 => Self::Garmin,
            6 => Self::SRM,
            7 => Self::Quarq,
            29 => Self::Saxonar,
            32 => Self::WahooFitness,
            41 => Self::Shimano,
            60 => Self::Rotor,
            69 => Self::StagesCycling,
            100 => Self::Campagnolo,
            263 => Self::Favero,
            268 => Self::SRAM,
            _ => Self::Undefined,
        }
    }

    /// The manufacturer's name.
    pub fn as_str(&self) -> (r: &'static str)
        ensures
            r@ == manufacturer_name(*self)@,
    {
        match self {
            Self::Garmin => "Garmin",
            Self::SRM => "SRM",
            Self::Quarq => "Quarq",
            Self::Saxonar => "Saxonar",
            Self::WahooFitness => "Wahoo Fitness",
            Self::Shimano => "Shimano",
            Self::Rotor => "Rotor",
            Self::StagesCycling => "Stages Cycling",
            Self::Campagnolo => "Campagnolo",
            Self::Favero => "Favero",
            Self::SRAM => "SRAM",
            Self::Undefined => "Undefined",
        }
    }
}

pub open spec fn manufacturer_name(m: Manufacturer) -> &'static str {
    match m {
        Manufacturer::Garmin => "Garmin",
        Manufacturer::SRM => "SRM",
        Manufacturer::Quarq => "Quarq",
        Manufacturer::Saxonar => "Saxonar",
        Manufacturer::WahooFitness => "Wahoo Fitness",
        Manufacturer::Shimano => "Shimano",
        Manufacturer::Rotor => "Rotor",
        Manufacturer::StagesCycling => "Stages Cycling",
        Manufacturer::Campagnolo => "Campagnolo",
        Manufacturer::Favero => "Favero",
        Manufacturer::SRAM => "SRAM",
        Manufacturer::Undefined => "Undefined",
    }
}

/// Page 0x50: manufacturer information.
#[derive(Clone, Copy, Debug, PartialEq, Eq)]
pub struct Page0x50(pub [u8; 8]);

impl Page0x50 {
    pub fn hardware_revision(&self) -> (r: u8)
        ensures
            r == self.0@[3],
    {
        self.0[3]
    }

    pub fn manufacturer(&self) -> (r: Manufacturer)
        ensures
            r == manufacturer_of(le_u16(self.0@.subrange(4, 6))),
    {
        Manufacturer::from(bytes_to_u16(vstd::slice::slice_subrange(self.0.as_slice(), 4, 6)))
    }

    pub fn model_number(&self) -> (r: u16)
        ensures
            r == le_u16(self.0@.subrange(6, 8)),
    {
        bytes_to_u16(vstd::slice::slice_subrange(self.0.as_slice(), 6, 8))
    }
}

/// Page 0x51: product information.
#[derive(Clone, Copy, Debug, PartialEq, Eq)]
pub struct Page0x51(pub [u8; 8]);

impl Page0x51 {
    pub fn serial_number(&self) -> (r: u32)
        ensures
            r == le_u32(self.0@.subrange(4, 8)),
    {
        bytes_to_u32(vstd::slice::slice_subrange(self.0.as_slice(), 4, 8))
    }
}

/// Page 0x52: battery status.
#[derive(Clone, Copy, Debug, PartialEq, Eq)]
pub struct Page0x52(pub [u8; 8]);

impl Page0x52 {
    pub fn battery_status(&self) -> (r: BatteryStatus)
        ensures
            r == battery_status_of(self.0@[7]),
    {
        BatteryStatus::from(self.0[7])
    }

    /// Seconds per tick of the operating time: 16 when bit 7 of the
    /// descriptive field is set, else 2.
    pub fn time_resolution(&self) -> (r: u8)
        ensures
            r == (if self.0@[7] & 0x80 == 0x80 { 16u8 } else { 2u8 }),
    {
        if self.0[7] & 0x80 == 0x80 {
            16
        } else {
            2
        }
    }

    /// Whole volts of the battery; 0x0F means that the voltage is not given.
    pub fn coarse_voltage(&self) -> (r: u8)
        ensures
            r == self.0@[7] & 0x0F,
    {
        self.0[7] & 0x0F
    }
}

} // verus!
