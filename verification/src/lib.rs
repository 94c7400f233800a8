//! Scan orchestration and offline-delivery core of an attendance kiosk.
//!
//! The library models the decision logic of the kiosk backend: the
//! lifecycle of the background polling service, exclusive access to the
//! single physical reader, the retry policy for flaky reader protocol
//! errors, the offline cache of scan events that could not be delivered,
//! and the drain worker that retries them with bounded attempts.
//! Hardware, network and file plumbing live outside the library and talk
//! to it through plain values.

pub mod auth;
pub mod cache;
pub mod config;
pub mod driver;
pub mod gate;
pub mod interface;
pub mod logs;
pub mod pn5180;
pub mod session;
pub mod service;
pub mod student_cache;
pub mod submit;
pub mod sync;
pub mod text;
pub mod worker;
