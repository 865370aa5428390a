//! Verified core of the llm-manager terminal UI: text editing, pickers, panel focus,
//! log-line classification and the overlay key handlers.
pub mod text;
pub mod clock;
pub mod editor;
pub mod nav;
pub mod types;
pub mod keys;
pub mod bench;
pub mod rpc_workers;
pub mod settings_lists;
pub mod server_settings;
pub mod mouse;
pub mod screen_layout;
pub mod files_view;
pub mod model_state;
pub mod models_list;
pub mod settings_sync;
pub mod backends;
pub mod websearch;
pub mod templates;
pub mod search;
pub mod settings_panel;
pub mod setting_steps;
pub mod bench_setup;
pub mod server_flow;
pub mod download_list;
pub mod model_profiles;
pub mod endpoints;
pub mod server_log;
pub mod metrics_poll;
pub mod model_sync;
pub mod key_router;
pub mod panels;
pub mod panel_help;
pub mod parsing;
pub mod downloads;
pub mod catalogue;
pub mod loading;
pub mod logbook;
pub mod ticks;
pub mod task_results;
pub mod panel_keys;
pub mod overlay;
