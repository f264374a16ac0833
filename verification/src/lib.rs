//! A small telemetry dashboard renderer for a low-resolution color display.
//!
//! Three power channels (voltage, current, power) are kept in an in-memory
//! dashboard, formatted as fixed two-decimal text, laid out right-aligned in
//! three columns of 8x12 glyph cells, and turned into a frame plan: an
//! optional full clear followed by one rectangular pixel write per glyph.
//! An unverified control loop feeds sensor samples in and hands the planned
//! operations to the display transport.

pub mod color;
pub mod dashboard;
pub mod fixed;
pub mod font;
pub mod format;
pub mod layout;
