//! Verified core of the RLBot GUI: story-mode bookkeeping, the in-GUI console,
//! match and mutator settings with their persistence in the GUI's INI file,
//! bot-pack update planning and the small parsers the GUI relies on.

pub mod agent_config_parser;
pub mod archive;
pub mod bot_config_bundle;
pub mod bot_creation;
pub mod bots_base;
pub mod cfg_helper;
pub mod commands;
pub mod config_handles;
pub mod config_store;
pub mod custom_maps;
pub mod console;
pub mod downloader;
pub mod gateway_util;
pub mod log_upload;
pub mod match_handler;
pub mod match_option_names;
pub mod match_settings_config_parser;
pub mod python_detect;
pub mod python_packages;
pub mod settings;
pub mod setup_manager;
pub mod story;
pub mod stories;
pub mod str_map;
pub mod text;
