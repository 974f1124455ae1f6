//! Date intervals: three-way endpoint bounds, the containment test, and the
//! shared interval interface.

pub mod base;
pub mod bound;
