//! A renderer for digital timing diagrams.
//!
//! A [`diagram::Diagram`] describes signal traces (waves of logic levels)
//! together with markers and labels, stacked in lanes. The compositor in
//! [`compose`] turns such a diagram into an in-memory vector document
//! ([`document::Document`]) with exact coordinates; writing that document
//! out to a file is left to the caller.
//!
//! All geometry is carried in integer thousandths: coordinates in
//! milli-pixels, horizontal positions, phase and period in milli-periods.

pub mod color;
pub mod compose;
pub mod diagram;
pub mod document;
pub mod error;
pub mod layout;
pub mod markers;
pub mod parse;
pub mod signal;
pub mod translate;
