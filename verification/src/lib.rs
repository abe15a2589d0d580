//! Verified core of a Vulkan debug-utils messenger registration.
//!
//! The crate holds everything about a debug callback that can be decided on
//! plain values:
//!
//! - [`flags`]: how severity and type selections map onto the native bit
//!   flags, and back;
//! - [`message`]: how the payload of one diagnostic event becomes a
//!   [`Message`];
//! - [`trampoline`]: what happens when the driver reports an event, and what
//!   it is told afterwards;
//! - [`callback`]: the protocol a registration follows from creation to
//!   release, and the native calls that become due on the way;
//! - [`error`]: why a registration can be refused.
//!
//! Talking to the driver itself (function pointers, raw C structures, a
//! callback that unwinds) is left to the caller. The caller performs the
//! native calls this crate names and reports back what the driver said.

pub mod callback;
pub mod error;
pub mod flags;
pub mod message;
pub mod trampoline;

pub use callback::DebugCallback;
pub use error::DebugCallbackCreationError;
pub use flags::{MessageSeverity, MessageType};
pub use message::Message;
