pub mod cli;
pub mod config_manager;
pub mod daemon_communication;
pub mod event_recorder;
pub mod events;
pub mod json;
pub mod load_ebpf;
pub mod process_watcher;
pub mod text;
pub mod tracer_client;
