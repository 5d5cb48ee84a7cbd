//! Verified core of a register-polling telemetry bridge.
//!
//! A pass reads a table of named registers from a field device, decodes each
//! raw word sequence into an exact fixed-point reading, and publishes it under
//! a topic derived from the register's name and unit. This crate holds the
//! descriptor table, the decoder, the topic and message rules and the
//! decisions of a pass; performing the reads and the publishing is left to
//! the caller.

pub mod clock;
pub mod decode;
pub mod descriptor;
pub mod message;
pub mod pass;
pub mod poller;
pub mod registers;
pub mod topic;

pub use decode::{decode, vec_u16_to_u32, DecodeError, Reading};
pub use descriptor::{ConfigError, DescriptorTable, RegisterDescriptor, Width};
pub use message::{liveness_message, Delivery, PublishedMessage};
pub use poller::{
    clock_event, poll_step, PassError, PollAction, PollEvent, PollState, TransportError,
    READ_TIMEOUT_SECS,
};
pub use registers::solis_registers;
pub use topic::{compose_topic, derive_topic};
