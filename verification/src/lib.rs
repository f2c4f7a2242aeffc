//! A small weather-report library: it classifies provider condition codes
//! into display glyphs, renders a typed weather response as a multi-line
//! report, collapses fetch failures into one fallback message, builds the
//! request URL, and models the surrounding interface as a state machine.
pub mod endpoint;
pub mod icon;
pub mod numeral;
pub mod report;
pub mod shell;
