//! Risk classification for the labels of a flowchart-style diagram source.
//!
//! A label that holds a line-break marker, an arithmetic operator or a pipe
//! may be read as syntax by the renderer unless it is quoted. A scanner looks
//! at one source line at a time and records what it found there; this library
//! holds that record and derives two verdicts from it: whether the label
//! needs quoting, and whether the line is likely to break rendering as it
//! stands.

pub mod label_risk;
pub mod safety_profile;

pub use label_risk::MermaidLabelRisk;
pub use safety_profile::MermaidSafetyProfile;
