//! GPU device, resources, and command buffers.

pub mod acceleration_structure;
pub mod command_buffer;
pub mod device;
