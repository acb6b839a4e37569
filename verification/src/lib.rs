//! Asynchronous dictionary-lookup bridge.
//!
//! One query names a dictionary archive on disk and a word; the answer is the
//! word's stored definition, its absence, or a failure to read the archive.
//! The archive itself is opened and searched by an unverified host shell; this
//! crate holds the verified core of the bridge: building the query task,
//! classifying the accessor's raw outcome, and marshaling that outcome into
//! the value or the rejection that the caller finally observes.

pub mod bridge;
pub mod outcome;

pub use bridge::MdictEntry;
pub use bridge::WordQueryTask;
pub use outcome::ErrorInfo;
pub use outcome::LookupOutcome;
