# dewpoint

A Prometheus exporter for Govee H5075 Bluetooth thermometer/hygrometer sensors.
The sensor broadcasts its readings in BLE advertisement data; the exporter listens
passively and publishes one labelled set of gauges per sensor.

- `src/` is the library, written and proved with Verus:
  - `reading.rs` decodes the six-byte manufacturer-data payload into a `Reading`
    (exact fixed-point temperature and humidity, battery, error flag), converts the
    temperature to Fahrenheit and decides whether a reading is plausible.
  - `allowlist.rs` decides whether a sensor address is exported, comparing it with
    the allowlist case-insensitively.
  - `gauges.rs` names, describes and fills the exported gauges.
- `tests/` exercises the library on concrete payloads and addresses.
- `app/main.rs` is the program: command-line and environment configuration,
  Bluetooth scanning, the Prometheus endpoint and signal handling.
