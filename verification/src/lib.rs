//! Verified core of the bindizr command-line client and daemon front ends.

pub mod text;
pub mod bind_conf;
pub mod color;
pub mod diff;
pub mod cli_error;
pub mod output;
pub mod doctor;
pub mod time;
pub mod table;
pub mod commands;
pub mod lifecycle;
pub mod api;
pub mod keys;
pub mod dnssec_status;
pub mod secondary;
pub mod config_listing;
pub mod policies;
pub mod zone_commands;
pub mod daemon_status;
pub mod config_value;
