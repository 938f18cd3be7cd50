//! A verified model of a kernel request-dispatch engine.
//!
//! The library covers the logic of two small device-driver personalities:
//! a zero-fill device (reads yield zeroed bytes, writes are discarded, both
//! are counted) and a thread-priority booster (a write request carries a
//! fixed-layout record that asks for a priority change on another thread).
//! Everything the drivers decide — request validation, buffer length gates,
//! control-code multiplexing, counter accounting, the record's range checks,
//! the handle-release discipline, and the transactional device setup and
//! teardown — is verified here. The platform calls themselves (device
//! creation, memory mapping, thread lookup) are events that a thin runner
//! reports back into these state machines.

pub mod status;
pub mod ctl;
pub mod stats;
pub mod codec;
pub mod buffer;
pub mod zero;
pub mod dispatch;
pub mod lifecycle;
pub mod boost;
pub mod logging;
