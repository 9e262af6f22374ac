//! Wall-clock performance measurement: instants and running moments, the
//! trimmed benchmark loop, and the threshold comparator for performance
//! statistics.

pub mod benchmark;
pub mod compare;
pub mod measure;
