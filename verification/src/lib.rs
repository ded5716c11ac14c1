//! Time tracking core: the local timer state machine, the offline-first
//! time-entry stores, the retry queue for sync operations, idle detection
//! decisions, the request protocol of the background services, and the
//! text and URL helpers around them.

pub mod seqs;
pub mod text;
pub mod clock;
pub mod constants;
pub mod models;
pub mod api_types;
pub mod timer_state;
pub mod local_store;
pub mod storage;
pub mod entry_sync;
pub mod sync_queue;
pub mod sync_cycle;
pub mod idle;
pub mod idle_probe;
pub mod url;
pub mod auth;
pub mod service;
pub mod ui_bridge;
