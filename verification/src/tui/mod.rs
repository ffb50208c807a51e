//! The state behind the terminal front end: progress per MFT file, the
//! messages that workers send to it, and the tabs.

pub mod mainbound_message;
pub mod progress;
pub mod worker;
pub mod tabs;
pub mod app;
pub mod health;
