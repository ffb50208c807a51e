//! Analysis of NTFS Master File Table dumps: record slicing and validation,
//! path reconstruction from parent references, progress bookkeeping for a
//! terminal front end, byte-level comparison of dumps, and the command line
//! model with its argument builders.

pub mod cli;
pub mod config;
pub mod elevation_commands;
pub mod fuzzy;
pub mod mft;
pub mod mft_diff;
pub mod mft_dump;
pub mod mft_query;
pub mod mft_show;
pub mod numbers;
pub mod paths;
pub mod pdh_error;
pub mod resolver;
pub mod styled;
pub mod summary;
pub mod text;
pub mod text_order;
pub mod to_args;
pub mod total_space;
pub mod tui;
pub mod win_paged_mft_reader;
