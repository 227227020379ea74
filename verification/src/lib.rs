//! Counts of how often one kind of punch follows another.
//!
//! [`Graph`] keeps a counter, a [`Weight`], for each ordered pair of
//! [`PunchKind`]s. The module [`counts`] holds the mathematical model of the
//! graph and the laws proved of it.

pub mod counts;
pub mod graph;
pub mod punch;
pub mod weight;

pub use graph::Graph;
pub use punch::{Combo, PunchKind};
pub use weight::{Edge, Weight};
