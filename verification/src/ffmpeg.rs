//! Driving the external media tool: the export of a timeline and what
//! belongs to it.

pub mod concat;
pub mod course;
pub mod estimate;
pub mod export;
pub mod pipeline;
pub mod probe;
pub mod thumbnail;
pub mod progress;
pub mod temp;
pub mod timeline;
pub mod trim;
