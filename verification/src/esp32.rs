//! The ESP32 programs: the Wi-Fi configuration and the HTTP response printer.

pub mod config;
pub mod httpclient;
pub mod serial;
