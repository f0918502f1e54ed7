//! Verified core of a Cheat Engine plugin that takes textual commands from an
//! AI bridge: the command protocol, number parsing and formatting, the memory
//! value codecs and the response texts.

pub mod memory;
pub mod number;
pub mod plugin;
pub mod protocol;
pub mod replies;
pub mod session;
pub mod text;

pub use number::{parse_address, ParseIntError};
pub use plugin::{lua_State, PluginType, CESDK_VERSION};
pub use protocol::Command;
