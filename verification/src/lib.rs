//! Decoding and filtering of Govee H5075 thermometer/hygrometer advertisements.
//!
//! The H5075 broadcasts its temperature, humidity and battery level inside the
//! manufacturer data of its Bluetooth Low Energy advertisements. This crate decodes
//! that payload into a [`Reading`], decides whether a reading is plausible, decides
//! whether a sensor address is on the exporter's allowlist, and lays out the gauge
//! values that an exporter publishes for a reading.
//!
//! Temperatures and humidities are kept in exact fixed-point integers (tenths of a
//! degree Celsius, tenths of a percent, hundredths of a degree Fahrenheit), which is
//! the resolution the sensor reports.

pub mod allowlist;
pub mod gauges;
pub mod reading;

pub use allowlist::is_allowed;
pub use reading::{admit_payload, decode_h5075, Admission, Reading};

use vstd::prelude::*;

verus! {

/// Bluetooth SIG company identifier used by Govee H5075 advertisements.
pub const GOVEE_COMPANY_ID: u16 = 0xEC88;

} // verus!
