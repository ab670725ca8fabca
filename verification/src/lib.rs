//! Decision logic of a magnetic-levitation controller board: the push-button
//! debouncer and the rotary-encoder height editor of the front panel, the
//! mapping of balance commands onto the four coil PWM channels, and the
//! request/response frames of the TOF050F distance sensor.

pub mod click_filter;
pub mod interface;
pub mod coil;
pub mod tof050f;
