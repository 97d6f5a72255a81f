//! A host-resident intrusion detection engine.
//!
//! The detector keeps, for each source address, the recent failed SSH
//! authentications, web requests and TCP SYN packets under sliding windows,
//! and the distinct destination ports contacted.  It takes in packets and
//! lines of two log files, and returns an alert when a threshold is crossed:
//! SSH brute force, SYN flood, port scan, enumeration of a web server.
//!
//! Reading files, capturing packets and writing alerts out are left to the
//! caller; the library decides and formats.

pub mod alert;
pub mod clock;
pub mod config;
pub mod detector;
pub mod laws;
pub mod packet;
pub mod patterns;
pub mod table;
pub mod tail;
pub mod text;
pub mod window;

pub use alert::{Alert, AlertType, Risk};
pub use detector::Detector;
