//! Session engine for a local development file server.
//!
//! The library owns the logic of one running server instance: the
//! start/stop/restart state machine, the bounded most-recently-used
//! directory list, the port search order, the reload decision for
//! filesystem events, the per-connection websocket protocol step, and
//! the URL strings reported to the caller.  All I/O (binding sockets,
//! watching directories, serving HTTP) is performed by the embedding
//! program, which drives these verified transitions and carries out the
//! actions they return.

mod errors;
mod laws;
mod ports;
mod recent;
mod reload;
mod session;
mod urls;

pub use errors::ServerError;
pub use reload::FsEventKind;
pub use reload::WsAction;
pub use reload::WsEvent;
pub use reload::reload_payload;
pub use reload::should_reload;
pub use reload::ws_step;
pub use laws::StartParams;
pub use laws::lemma_at_most_one_task;
pub use laws::lemma_restart_stops_previous;
pub use laws::lemma_sequence_of_starts;
pub use laws::lemma_start_succeeds;
pub use laws::lemma_stop_idle;
pub use laws::lemma_stop_twice;
pub use laws::run_one_start;
pub use laws::run_starts;
pub use recent::distinct_paths;
pub use recent::keep_others;
pub use recent::lemma_mru_insert;
pub use recent::mru_insert;
pub use recent::path_views;
pub use session::ServerState;
pub use session::SessionModel;
pub use session::Teardown;
pub use session::begin_start_model;
pub use session::finish_start_model;
pub use session::idle_model;
pub use session::stop_model;
pub use urls::dec_digits;
pub use urls::digit_char;
pub use urls::start_message_chars;
pub use urls::url_chars;
pub use ports::DEFAULT_PORT;
pub use ports::MAX_PORT_TRIES;
pub use ports::find_available_port;
pub use ports::next_candidate_port;
pub use recent::MAX_RECENT_DIRS;
pub use urls::format_url;
pub use urls::start_message;
