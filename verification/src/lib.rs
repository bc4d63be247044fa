//! Safe, verified core of a client library for a C media-player control API.
//!
//! The native protocol exchanges dynamically-typed values through a tagged
//! union, identifies value shapes by small numeric format tags, and reports
//! results through numeric error codes and a polled event queue.  This crate
//! holds the value marshalling, typed-format dispatch and event decoding
//! logic over an explicit, allocation-counted model of the native memory;
//! the thin unsafe glue that passes the staged bytes to the C side lives
//! outside the verified library.

pub mod command;
pub mod error;
pub mod event;
pub mod format;
pub mod handle;
pub mod node;
pub mod protocol;
pub mod wire;

pub use command::stage_command_args;
pub use command::CommandArgs;
pub use error::mpv_result;
pub use error::Error;
pub use event::ClientMessage;
pub use event::Event;
pub use event::EventData;
pub use event::EventRecord;
pub use event::EndFile;
pub use event::Hook;
pub use event::LogMessage;
pub use event::Property;
pub use event::StartFile;
pub use format::DoubleBits;
pub use format::Format;
pub use format::Transient;
pub use handle::PropertyCall;
pub use node::adopt_node_contents;
pub use node::from_mpv_node;
pub use node::free_node_contents;
pub use node::to_mpv_node;
pub use node::Node;
pub use protocol::mpv_end_file_reason;
pub use protocol::mpv_error;
pub use protocol::mpv_event_id;
pub use protocol::mpv_log_level;
pub use wire::NativeHeap;
pub use wire::WireNode;
