//! StoryStream: an audiobook library, with its domain types, configuration
//! rules, content-source helpers, feed parsing and playback controls.

pub mod text;
pub mod feed;
pub mod xml_source;
pub mod feed_parser;
pub mod app_error;
pub mod time;
pub mod ids;
pub mod metadata;
pub mod validate;
pub mod book;
pub mod bookmark;
pub mod playlist;
pub mod stats;
pub mod sleep_timer;
pub mod validation;
pub mod app_config;
pub mod library_config;
pub mod config_files;
pub mod backup_order;
pub mod database_config;
pub mod sources;
pub mod librivox;
pub mod ffi;
pub mod player_controls;
pub mod db_rows;
pub mod db_writes;

use vstd::prelude::*;

verus! {

/// The sum of two counts.
pub fn add(left: u64, right: u64) -> (r: u64)
    requires
        left + right <= u64::MAX,
    ensures
        r == left + right,
{
    left + right
}

} // verus!
