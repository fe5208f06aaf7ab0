use dewpoint::gauges::{all_gauges, reading_samples, Gauge, GaugeUnit, Sample};
use dewpoint::Reading;

fn sample(gauge: Gauge, value: i128, decimals: u8) -> Sample {
    Sample { gauge, value, decimals }
}

#[test]
fn gauge_names_descriptions_and_units() {
    let expected = [
        (Gauge::TemperatureCelsius, "dewpoint_temperature_celsius", GaugeUnit::Count),
        (Gauge::TemperatureFahrenheit, "dewpoint_temperature_fahrenheit", GaugeUnit::Count),
        (Gauge::HumidityPercent, "dewpoint_humidity_percent", GaugeUnit::Percent),
        (Gauge::BatteryPercent, "dewpoint_battery_percent", GaugeUnit::Percent),
        (Gauge::RssiDbm, "dewpoint_rssi_dbm", GaugeUnit::Count),
        (Gauge::LastSeenTimestampSeconds, "dewpoint_last_seen_timestamp_seconds", GaugeUnit::Seconds),
    ];
    let all = all_gauges();
    assert_eq!(all.len(), expected.len());
    for (gauge, (want, name, unit)) in all.iter().zip(expected.iter()) {
        assert_eq!(gauge, want);
        assert_eq!(gauge.name(), *name);
        assert_eq!(gauge.unit(), *unit);
    }
    assert_eq!(Gauge::RssiDbm.description(), "Received signal strength of the last advertisement in dBm");
    assert_eq!(Gauge::TemperatureCelsius.description(), "Sensor temperature in degrees Celsius");
}

#[test]
fn samples_with_signal_strength() {
    let reading = Reading { temp_c_tenths: 241, humidity_tenths: 581, battery: 59, error: false };
    let samples = reading_samples(&reading, Some(-42), 1_780_955_454_000_000_000);
    assert_eq!(
        samples,
        vec![
            sample(Gauge::TemperatureCelsius, 241, 1),
            sample(Gauge::TemperatureFahrenheit, 7538, 2),
            sample(Gauge::HumidityPercent, 581, 1),
            sample(Gauge::BatteryPercent, 59, 0),
            sample(Gauge::LastSeenTimestampSeconds, 1_780_955_454_000_000_000, 9),
            sample(Gauge::RssiDbm, -42, 0),
        ]
    );
}

#[test]
fn samples_without_signal_strength() {
    let reading = Reading { temp_c_tenths: -4, humidity_tenths: 822, battery: 85, error: false };
    let samples = reading_samples(&reading, None, 0);
    assert_eq!(
        samples,
        vec![
            sample(Gauge::TemperatureCelsius, -4, 1),
            sample(Gauge::TemperatureFahrenheit, 3128, 2),
            sample(Gauge::HumidityPercent, 822, 1),
            sample(Gauge::BatteryPercent, 85, 0),
            sample(Gauge::LastSeenTimestampSeconds, 0, 9),
        ]
    );
    assert!(samples.iter().all(|s| s.gauge != Gauge::RssiDbm));
}

#[test]
fn written_gauges_match_described_gauges() {
    let reading = Reading { temp_c_tenths: 238, humidity_tenths: 565, battery: 59, error: false };
    let mut described: Vec<&str> = all_gauges().iter().map(|g| g.name()).collect();
    let mut written: Vec<&str> =
        reading_samples(&reading, Some(-60), 5).iter().map(|s| s.gauge.name()).collect();
    described.sort();
    written.sort();
    assert_eq!(described, written);

    let without_rssi: Vec<Gauge> = reading_samples(&reading, None, 5).iter().map(|s| s.gauge).collect();
    let expected: Vec<Gauge> = all_gauges().into_iter().filter(|g| *g != Gauge::RssiDbm).collect();
    assert_eq!(without_rssi.len(), expected.len());
    assert!(expected.iter().all(|g| without_rssi.contains(g)));
}

#[test]
fn gauge_names_are_distinct() {
    let names: Vec<&str> = all_gauges().iter().map(|g| g.name()).collect();
    for (i, a) in names.iter().enumerate() {
        for b in names.iter().skip(i + 1) {
            assert_ne!(a, b);
        }
    }
}
