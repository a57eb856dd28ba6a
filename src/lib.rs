//! Runtime coordinator of a chat bot: the shared state that its background
//! tasks read and update, the command dispatcher's parsing and routing, the
//! connection-latency monitor, the presence rotation and the shutdown rule.

pub mod init;
pub mod storage;
pub mod commands;
pub mod ping;
pub mod monitor;
pub mod rotation;
pub mod shutdown;
pub mod utils;
pub mod text;
pub mod i18n;
