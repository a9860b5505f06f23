//! The decisions of an ESP32 demo that shows, on a strip of LEDs, the colors that
//! an MQTT broker publishes, and tests the board around it.
//!
//! Each module holds the part of one task that can be decided from plain values:
//! what to send, draw, answer or do next. The program that talks to the hardware
//! and to the network carries it out.
pub mod boards;
pub mod display;
pub mod echo;
pub mod events;
pub mod http;
pub mod led;
pub mod mqtt;
pub mod mqtt_client;
pub mod probe;
pub mod report;
pub mod runs;
pub mod session_laws;
pub mod supervisor;
pub mod text;
pub mod wifi;
