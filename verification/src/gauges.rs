//! The gauges an exporter publishes for each sensor, and the values a reading gives them.

use crate::reading::{celsius_to_fahrenheit_hundredths, Reading};
use vstd::prelude::*;

verus! {

/// A gauge exported for every sensor, labelled by the sensor's address and name.
#[derive(Debug, Clone, Copy, PartialEq, Eq, Structural)]
pub enum Gauge {
    /// Sensor temperature in degrees Celsius.
    TemperatureCelsius,
    /// Sensor temperature in degrees Fahrenheit.
    TemperatureFahrenheit,
    /// Sensor relative humidity as a percentage.
    HumidityPercent,
    /// Sensor battery charge as a percentage.
    BatteryPercent,
    /// Received signal strength of the last advertisement, in dBm.
    RssiDbm,
    /// Unix timestamp, in seconds, of the last advertisement received.
    LastSeenTimestampSeconds,
}

/// The unit a gauge is described with.
#[derive(Debug, Clone, Copy, PartialEq, Eq, Structural)]
pub enum GaugeUnit {
    /// A plain quantity.
    Count,
    /// A percentage.
    Percent,
    /// A number of seconds.
    Seconds,
}

impl Gauge {
    /// The Prometheus metric name of the gauge.
    pub open spec fn spec_name(self) -> Seq<char> {
        match self {
            Gauge::TemperatureCelsius => "dewpoint_temperature_celsius"@,
            Gauge::TemperatureFahrenheit => "dewpoint_temperature_fahrenheit"@,
            Gauge::HumidityPercent => "dewpoint_humidity_percent"@,
            Gauge::BatteryPercent => "dewpoint_battery_percent"@,
            Gauge::RssiDbm => "dewpoint_rssi_dbm"@,
            Gauge::LastSeenTimestampSeconds => "dewpoint_last_seen_timestamp_seconds"@,
        }
    }

    /// Returns the Prometheus metric name of the gauge.
    pub fn name(&self) -> (s: &'static str)
        ensures
            s@ == self.spec_name(),
    {
        match self {
            Gauge::TemperatureCelsius => "dewpoint_temperature_celsius",
            Gauge::TemperatureFahrenheit => "dewpoint_temperature_fahrenheit",
            Gauge::HumidityPercent => "dewpoint_humidity_percent",
            Gauge::BatteryPercent => "dewpoint_battery_percent",
            Gauge::RssiDbm => "dewpoint_rssi_dbm",
            Gauge::LastSeenTimestampSeconds => "dewpoint_last_seen_timestamp_seconds",
        }
    }

    /// The help text the gauge is described with.
    pub open spec fn spec_description(self) -> Seq<char> {
        match self {
            Gauge::TemperatureCelsius => "Sensor temperature in degrees Celsius"@,
            Gauge::TemperatureFahrenheit => "Sensor temperature in degrees Fahrenheit"@,
            Gauge::HumidityPercent => "Sensor relative humidity as a percentage"@,
            Gauge::BatteryPercent => "Sensor battery charge as a percentage"@,
            Gauge::RssiDbm => "Received signal strength of the last advertisement in dBm"@,
            Gauge::LastSeenTimestampSeconds => "Unix timestamp of the last advertisement received"@,
        }
    }

    /// Returns the help text the gauge is described with.
    pub fn description(&self) -> (s: &'static str)
        ensures
            s@ == self.spec_description(),
    {
        match self {
            Gauge::TemperatureCelsius => "Sensor temperature in degrees Celsius",
            Gauge::TemperatureFahrenheit => "Sensor temperature in degrees Fahrenheit",
            Gauge::HumidityPercent => "Sensor relative humidity as a percentage",
            Gauge::BatteryPercent => "Sensor battery charge as a percentage",
            Gauge::RssiDbm => "Received signal strength of the last advertisement in dBm",
            Gauge::LastSeenTimestampSeconds => "Unix timestamp of the last advertisement received",
        }
    }

    /// The unit the gauge is described with.
    pub open spec fn spec_unit(self) -> GaugeUnit {
        match self {
            Gauge::HumidityPercent | Gauge::BatteryPercent => GaugeUnit::Percent,
            Gauge::LastSeenTimestampSeconds => GaugeUnit::Seconds,
            _ => GaugeUnit::Count,
        }
    }

    /// Returns the unit the gauge is described with.
    pub fn unit(&self) -> (u: GaugeUnit)
        ensures
            u == self.spec_unit(),
    {
        match self {
            Gauge::HumidityPercent | Gauge::BatteryPercent => GaugeUnit::Percent,
            Gauge::LastSeenTimestampSeconds => GaugeUnit::Seconds,
            _ => GaugeUnit::Count,
        }
    }
}

/// The gauges that are described to the metrics recorder, in order.
pub open spec fn spec_all_gauges() -> Seq<Gauge> {
    seq![
        Gauge::TemperatureCelsius,
        Gauge::TemperatureFahrenheit,
        Gauge::HumidityPercent,
        Gauge::BatteryPercent,
        Gauge::RssiDbm,
        Gauge::LastSeenTimestampSeconds,
    ]
}

/// Returns every gauge, in the order they are described to the metrics recorder.
pub fn all_gauges() -> (v: Vec<Gauge>)
    ensures
        v@ == spec_all_gauges(),
{
    vec![
        Gauge::TemperatureCelsius,
        Gauge::TemperatureFahrenheit,
        Gauge::HumidityPercent,
        Gauge::BatteryPercent,
        Gauge::RssiDbm,
        Gauge::LastSeenTimestampSeconds,
    ]
}

/// A value to set a gauge to: `value` scaled down by `10^decimals`.
#[derive(Debug, Clone, Copy, PartialEq, Eq, Structural)]
pub struct Sample {
    /// The gauge to set.
    pub gauge: Gauge,
    /// The value, as an integer count of `10^-decimals` units.
    pub value: i128,
    /// The number of decimal digits in `value`.
    pub decimals: u8,
}

/// The samples a reading sets, in order: Celsius and Fahrenheit temperature,
/// humidity, battery, the time the advertisement was processed (in nanoseconds
/// since the Unix epoch, so with nine decimals in seconds); then the signal
/// strength, when it is known.
pub open spec fn spec_reading_samples(reading: Reading, rssi: Option<i16>, last_seen_nanos: u64) -> Seq<Sample> {
    let readings = seq![
        Sample { gauge: Gauge::TemperatureCelsius, value: reading.temp_c_tenths as i128, decimals: 1 },
        Sample {
            gauge: Gauge::TemperatureFahrenheit,
            value: celsius_to_fahrenheit_hundredths(reading.temp_c_tenths * 10) as i128,
            decimals: 2,
        },
        Sample { gauge: Gauge::HumidityPercent, value: reading.humidity_tenths as i128, decimals: 1 },
        Sample { gauge: Gauge::BatteryPercent, value: reading.battery as i128, decimals: 0 },
        Sample { gauge: Gauge::LastSeenTimestampSeconds, value: last_seen_nanos as i128, decimals: 9 },
    ];
    match rssi {
        Some(dbm) => readings.push(Sample { gauge: Gauge::RssiDbm, value: dbm as i128, decimals: 0 }),
        None => readings,
    }
}

/// Returns the gauge values that a decoded reading, the signal strength of its
/// advertisement and the time it was processed give; the signal strength is left
/// out when it is unavailable.
pub fn reading_samples(reading: &Reading, rssi: Option<i16>, last_seen_nanos: u64) -> (v: Vec<Sample>)
    ensures
        v@ == spec_reading_samples(*reading, rssi, last_seen_nanos),
{
    let mut v: Vec<Sample> = Vec::new();
    v.push(Sample { gauge: Gauge::TemperatureCelsius, value: reading.temp_c_tenths as i128, decimals: 1 });
    v.push(Sample { gauge: Gauge::TemperatureFahrenheit, value: reading.temp_f() as i128, decimals: 2 });
    v.push(Sample { gauge: Gauge::HumidityPercent, value: reading.humidity_tenths as i128, decimals: 1 });
    v.push(Sample { gauge: Gauge::BatteryPercent, value: reading.battery as i128, decimals: 0 });
    v.push(Sample { gauge: Gauge::LastSeenTimestampSeconds, value: last_seen_nanos as i128, decimals: 9 });
    if let Some(dbm) = rssi {
        v.push(Sample { gauge: Gauge::RssiDbm, value: dbm as i128, decimals: 0 });
    }
    v
}

/// The gauges that a list of samples sets.
pub open spec fn written_gauges(samples: Seq<Sample>) -> Set<Gauge> {
    samples.map_values(|s: Sample| s.gauge).to_set()
}

/// Every gauge that is written is described, and every described gauge is written:
/// all of them when the signal strength is known, all but the signal strength when
/// it is not.
pub proof fn lemma_written_gauges_are_described(reading: Reading, rssi: Option<i16>, last_seen_nanos: u64)
    ensures
        rssi is Some ==> written_gauges(spec_reading_samples(reading, rssi, last_seen_nanos))
            == spec_all_gauges().to_set(),
        rssi is None ==> written_gauges(spec_reading_samples(reading, rssi, last_seen_nanos))
            == spec_all_gauges().to_set().remove(Gauge::RssiDbm),
{
    let samples = spec_reading_samples(reading, rssi, last_seen_nanos);
    let written = samples.map_values(|s: Sample| s.gauge);
    let all = spec_all_gauges();
    assert forall|g: Gauge| #[trigger] all.contains(g) && (rssi is Some || g != Gauge::RssiDbm)
        implies written.contains(g) by {
        let k: int = match g {
            Gauge::TemperatureCelsius => 0,
            Gauge::TemperatureFahrenheit => 1,
            Gauge::HumidityPercent => 2,
            Gauge::BatteryPercent => 3,
            Gauge::LastSeenTimestampSeconds => 4,
            Gauge::RssiDbm => 5,
        };
        assert(written[k] == g);
    }
    assert forall|g: Gauge| #[trigger] written.contains(g) implies all.contains(g) && (rssi is Some || g != Gauge::RssiDbm) by {
        let k = choose|k: int| 0 <= k < written.len() && written[k] == g;
        let j: int = match g {
            Gauge::TemperatureCelsius => 0,
            Gauge::TemperatureFahrenheit => 1,
            Gauge::HumidityPercent => 2,
            Gauge::BatteryPercent => 3,
            Gauge::RssiDbm => 4,
            Gauge::LastSeenTimestampSeconds => 5,
        };
        assert(all[j] == g);
    }
    if rssi is Some {
        assert(written.to_set() =~= all.to_set());
    } else {
        assert(written.to_set() =~= all.to_set().remove(Gauge::RssiDbm));
    }
}

/// Different gauges have different metric names, so the names written and the
/// names described agree exactly when the gauges do.
pub proof fn lemma_gauge_names_distinct(a: Gauge, b: Gauge)
    requires
        a != b,
    ensures
        a.spec_name() != b.spec_name(),
{
    reveal_strlit("dewpoint_temperature_celsius");
    reveal_strlit("dewpoint_temperature_fahrenheit");
    reveal_strlit("dewpoint_humidity_percent");
    reveal_strlit("dewpoint_battery_percent");
    reveal_strlit("dewpoint_rssi_dbm");
    reveal_strlit("dewpoint_last_seen_timestamp_seconds");
    assert(a.spec_name().len() != b.spec_name().len());
}

/// The samples of a reading, gauge by gauge: the Celsius temperature in tenths,
/// the Fahrenheit temperature in hundredths (`18 * tenths + 3200`), the humidity in
/// tenths, the battery percentage, the last-seen time in nanoseconds, and then the
/// signal strength in dBm exactly when it is known.
pub proof fn lemma_sample_values(reading: Reading, rssi: Option<i16>, last_seen_nanos: u64)
    ensures
        ({
            let s = spec_reading_samples(reading, rssi, last_seen_nanos);
            &&& s.len() == (if rssi is Some {
                6int
            } else {
                5int
            })
            &&& s[0] == (Sample { gauge: Gauge::TemperatureCelsius, value: reading.temp_c_tenths as i128, decimals: 1 })
            &&& s[1].gauge == Gauge::TemperatureFahrenheit
            &&& s[1].value == 18 * reading.temp_c_tenths + 3200
            &&& s[1].decimals == 2
            &&& s[2] == (Sample { gauge: Gauge::HumidityPercent, value: reading.humidity_tenths as i128, decimals: 1 })
            &&& s[3] == (Sample { gauge: Gauge::BatteryPercent, value: reading.battery as i128, decimals: 0 })
            &&& s[4] == (Sample { gauge: Gauge::LastSeenTimestampSeconds, value: last_seen_nanos as i128, decimals: 9 })
            &&& rssi is Some ==> s[5] == (Sample { gauge: Gauge::RssiDbm, value: rssi->0 as i128, decimals: 0 })
        }),
{
    let c = reading.temp_c_tenths as int;
    assert(c * 10 * 9 / 5 == 18 * c) by (nonlinear_arith);
}

/// The exported gauges are exactly the six metrics of the exporter's documentation,
/// under these names, described with these units.
pub proof fn lemma_exported_metrics()
    ensures
        spec_all_gauges().len() == 6,
        Gauge::TemperatureCelsius.spec_name() == "dewpoint_temperature_celsius"@,
        Gauge::TemperatureFahrenheit.spec_name() == "dewpoint_temperature_fahrenheit"@,
        Gauge::HumidityPercent.spec_name() == "dewpoint_humidity_percent"@,
        Gauge::BatteryPercent.spec_name() == "dewpoint_battery_percent"@,
        Gauge::RssiDbm.spec_name() == "dewpoint_rssi_dbm"@,
        Gauge::LastSeenTimestampSeconds.spec_name() == "dewpoint_last_seen_timestamp_seconds"@,
        Gauge::TemperatureCelsius.spec_unit() == GaugeUnit::Count,
        Gauge::TemperatureFahrenheit.spec_unit() == GaugeUnit::Count,
        Gauge::HumidityPercent.spec_unit() == GaugeUnit::Percent,
        Gauge::BatteryPercent.spec_unit() == GaugeUnit::Percent,
        Gauge::RssiDbm.spec_unit() == GaugeUnit::Count,
        Gauge::LastSeenTimestampSeconds.spec_unit() == GaugeUnit::Seconds,
        forall|g: Gauge| #[trigger] spec_all_gauges().contains(g),
{
    assert forall|g: Gauge| #[trigger] spec_all_gauges().contains(g) by {
        let k: int = match g {
            Gauge::TemperatureCelsius => 0,
            Gauge::TemperatureFahrenheit => 1,
            Gauge::HumidityPercent => 2,
            Gauge::BatteryPercent => 3,
            Gauge::RssiDbm => 4,
            Gauge::LastSeenTimestampSeconds => 5,
        };
        assert(spec_all_gauges()[k] == g);
    }
}

} // verus!
