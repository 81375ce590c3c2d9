//! Verified core of the `nca` terminal coding assistant: text handling,
//! composer editing, pickers, command-line parsing and display formatting.

pub mod text;
pub mod text_utils;
pub mod width;
pub mod wrap;
pub mod composer;
pub mod approval;
pub mod palette;
pub mod keys;
pub mod searchable_list;
pub mod provider;
pub mod tui_cmd;
pub mod pickers;
pub mod branch;
pub mod cli_scan;
pub mod cli_values;
pub mod cli_levels;
pub mod cli;
pub mod session;
pub mod layout;
pub mod composer_line;
pub mod styled;
pub mod model_picker;
pub mod session_picker;
pub mod components;
pub mod repl;
pub mod html;
pub mod exit_code;
pub mod prompt;
pub mod transcript;
pub mod turn_state;
pub mod session_list;
pub mod slash;
pub mod composer_keys;
pub mod transcript_view;
pub mod export;
pub mod render;
pub mod picker_views;
pub mod popup_views;
pub mod completion;
pub mod event_text;
pub mod cost_dashboard;
pub mod doctor;
pub mod reports;
pub mod status_bar;
pub mod install;
pub mod viewport;
pub mod question_modal;
pub mod key_route;
