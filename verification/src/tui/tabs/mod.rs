//! The tabs of the front end.

pub mod app_tab;
pub mod app_tabs;
pub mod errors_tab;
pub mod keys;
pub mod overview_tab;
pub mod rows;
pub mod search_tab;
pub mod visualizer_tab;
