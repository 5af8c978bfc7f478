//! Telemetry pipeline of a battery-powered particulate-matter sensor
//! node.
//!
//! * [`sensor_reading`] decodes and validates the sensor's 32-byte frame.
//! * [`acquisition`] turns one poll of the sensor into a reading on the
//!   bus.
//! * [`telemetry_bus`] fans accepted readings out to the consumers and
//!   holds the producer back while the slowest of them lags.
//! * [`device_state`] tracks the warm-up and the currency of the last
//!   reading.
//! * [`display`] decides what the button, the screen's power and the
//!   screen's contents do.
//! * [`udp`] decides what goes out over the network link.
//! * [`text_line`] holds the text that the two consumers show or send.
//!
//! The functions here take and return plain values; the tasks that wait
//! for timers, buses and signals call them and carry out what they return.

pub mod acquisition;
pub mod device_state;
pub mod display;
pub mod sensor_reading;
pub mod telemetry_bus;
pub mod text_line;
pub mod udp;
