//! Verified logic of the monitor board's firmware: the telemetry ring, the
//! decoding of measurement frames, the start-up procedures of the
//! peripherals, key debouncing, display drawing and the host protocol's
//! register handlers.
pub mod adc;
pub mod beeper;
pub mod bus;
pub mod button;
pub mod cb;
pub mod cmd;
pub mod embbox;
pub mod game;
pub mod lcd;
pub mod mega_adc;
pub mod pld;
pub mod port;
pub mod sche;
pub mod splash;
pub mod telemetry;
pub mod tps;
