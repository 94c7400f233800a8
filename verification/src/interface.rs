//! Common interface of event-driven tag readers.
//!
//! A reader of this family runs its own scanning session and reports
//! detected tags as [`RfidTag`] values; the kiosk only starts and stops
//! the session and asks whether one is active. Implementations wrap the
//! real hardware or a simulation and are chosen at construction.

use vstd::prelude::*;

verus! {

/// A detected tag: its UID and when it was seen.
#[derive(Debug)]
pub struct RfidTag {
    /// UID of the tag.
    pub id: String,
    /// Unix seconds at detection.
    pub timestamp: i64,
}

impl Clone for RfidTag {
    /// An exact copy of the tag.
    fn clone(&self) -> (r: Self)
        ensures
            r == *self,
    {
        RfidTag { id: self.id.clone(), timestamp: self.timestamp }
    }
}

/// Failure of a reader operation.
#[derive(Debug)]
pub enum RfidError {
    /// The hardware could not be reached or set up.
    Hardware(String),
    /// The hardware answered, but the exchange went wrong.
    Communication(String),
    /// The reader was asked to run with an unusable configuration.
    Configuration(String),
    Other(String),
}

impl RfidError {
    /// The error as one line of text.
    pub fn describe(&self) -> (r: String)
        ensures
            match self {
                RfidError::Hardware(msg) => r@ == "Hardware error: "@ + msg@,
                RfidError::Communication(msg) => r@ == "Communication error: "@ + msg@,
                RfidError::Configuration(msg) => r@ == "Configuration error: "@ + msg@,
                RfidError::Other(msg) => r@ == "Error: "@ + msg@,
            },
    {
        match self {
            RfidError::Hardware(msg) => "Hardware error: ".to_owned().concat(msg.as_str()),
            RfidError::Communication(msg) => "Communication error: ".to_owned().concat(
                msg.as_str(),
            ),
            RfidError::Configuration(msg) => "Configuration error: ".to_owned().concat(
                msg.as_str(),
            ),
            RfidError::Other(msg) => "Error: ".to_owned().concat(msg.as_str()),
        }
    }
}

/// An event-driven reader with its own scanning session.
pub trait RfidReader {
    /// Start the reader's scanning session.
    fn start_scan(&mut self) -> Result<(), RfidError>;

    /// Stop the reader's scanning session.
    fn stop_scan(&mut self) -> Result<(), RfidError>;

    /// Whether a scanning session is active.
    fn is_scanning(&self) -> bool;
}

} // verus!
