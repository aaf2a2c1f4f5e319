//! Screen-capture recording outputs.

pub mod recording_output;
