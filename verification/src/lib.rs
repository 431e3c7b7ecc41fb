pub mod block_laws;
pub mod blocks;
pub mod chat_laws;
pub mod clipboard;
pub mod command_laws;
pub mod commands;
pub mod diagnostics;
pub mod display_laws;
pub mod doubles;
pub mod effects;
pub mod event_laws;
pub mod events;
pub mod export;
pub mod export_laws;
pub mod fixtures;
pub mod helpers;
pub mod input;
pub mod json;
pub mod key_laws;
pub mod keys;
pub mod laws;
pub mod message;
pub mod notices;
pub mod path_laws;
pub mod paths;
pub mod prompt;
pub mod prompt_laws;
pub mod prompts;
pub mod provider_laws;
pub mod providers;
pub mod scenario;
pub mod scenario_laws;
pub mod session_laws;
pub mod sessions;
pub mod sidebar;
pub mod sidebar_laws;
pub mod startup;
pub mod startup_laws;
pub mod state;
pub mod stream_events;
pub mod stream_laws;
pub mod task_laws;
pub mod tasks;
pub mod text;
pub mod text_laws;
pub mod title_laws;
pub mod titles;
pub mod tool;
pub mod tool_display;
