//! Verified core of a streaming SSTV and radiofax bridge: per-instance FIFO
//! command actors with bounded input queues, session lifecycle rules, the
//! validation of codec options, and the stable names under which codec state
//! is reported to callers.

pub mod error;
pub mod limits;
pub mod text;
pub mod clock;
pub mod names;
pub mod decoder;
pub mod encoder;
pub mod modes;
pub mod codec;
pub mod config;
pub mod notify;
pub mod sstv_notice;
pub mod fax_notice;
