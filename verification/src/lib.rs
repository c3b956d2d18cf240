//! Control core of a live video-production switcher.
//!
//! The library tracks which feed of a fixed registry is on air (program),
//! which is staged (preview) and which are keyed overlays (DSK), and
//! computes the text commands that drive the external mixing engine.
//! Sending those commands over the wire is the caller's concern: every
//! bus-affecting operation returns the exact command lines to emit, in
//! order, so the whole state machine and the protocol formatting are
//! verified here while the transport stays outside.

pub mod channel;
pub mod commands;
pub mod manager;
pub mod monitor_area;
pub mod numeral;

pub use channel::Channel;
pub use channel::VideoConfig;
pub use manager::Manager;
pub use manager::TransitionPlan;
pub use monitor_area::MonitorArea;
pub use monitor_area::MonitorAreaModel;
pub use monitor_area::MonitorAreaMsg;
pub use numeral::u64_to_string;
