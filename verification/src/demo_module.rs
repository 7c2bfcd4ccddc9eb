//! A second path to the record of the crate root.

pub use crate::DemoStruct;
