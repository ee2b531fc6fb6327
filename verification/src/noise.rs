//! Streams of procedurally generated noise samples.

pub mod streams;
