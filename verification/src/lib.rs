pub mod autocommit_config;
pub mod chat_context;
pub mod chroma;
pub mod config_data;
pub mod config_item;
pub mod config_key;
pub mod config_service;
pub mod default_behavior;
pub mod default_language;
pub mod git_data;
pub mod i18n;
pub mod openai;
pub mod option_string;
pub mod orchestrator;
pub mod persist;
pub mod strutil;
pub mod unicode;
