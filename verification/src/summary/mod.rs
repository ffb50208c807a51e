//! The summary of one dump: running statistics over its records, and the
//! state of the front end that shows them.

pub mod analysis;
pub mod app;
pub mod figures;
pub mod lines;
pub mod progress;
pub mod selected_tab;
pub mod tab_text;
