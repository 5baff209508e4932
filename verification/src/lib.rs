//! Real-time audio capture pipeline and validated air-traffic-control command
//! model. Audio samples are carried as their raw 32-bit words (`u32`): the
//! pipeline only moves samples, never interprets their amplitude, and the
//! all-zero word encodes silence.

pub mod aviation_command;
pub mod capture_buffer;
pub mod errors;
pub mod pipeline;
