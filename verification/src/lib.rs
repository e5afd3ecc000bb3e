//! Home Assistant WebSocket protocol: message schema and codec, the client
//! multiplexer's routing decisions and the surrogate server's state machine.

pub mod error;
pub mod haevlo;
pub mod hast;
pub mod json;
pub mod pirengine;
pub mod piresence;
pub mod sync;
pub mod text;
pub mod wsapi;
pub mod yaml;
