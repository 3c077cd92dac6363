//! The deciding core of a chat bot that answers dictionary, air-quality and
//! general-knowledge commands: the command grammar, the reply formatter, the
//! bounded job queue and the per-message state machines. Everything here works
//! on plain values; the transport and the data providers live with the caller.

pub mod text;
pub mod bridge;
pub mod command;
pub mod reply;
pub mod queue;
pub mod encode;
pub mod dispatch;
pub mod air_lookup;
pub mod knowledge;
pub mod sending;
pub mod membership;
