//! Non-blocking log-writing backend: producer threads hand records to a
//! dedicated worker that drains them from a channel, writes them to a byte
//! sink, and batches flushes; shutdown is a two-phase handshake over a
//! rendezvous channel.

use vstd::prelude::*;

mod append;
mod channel;
mod drain;
mod filter;
mod handle;
mod laws;
mod layout;
mod message;
mod record;
mod session;
mod sink;
mod worker;

pub use message::is_terminal;
pub use message::keep_looping;
pub use message::Message;
pub use message::MessageView;
pub use message::WorkerState;

pub use sink::FlakySink;
pub use sink::Sink;
pub use sink::SinkError;
pub use sink::StdoutSink;
pub use sink::VecSink;

pub use channel::RecvOutcome;

pub use drain::concat_records;
pub use drain::drain_state;
pub use drain::drained_bytes;
pub use drain::handle_message;
pub use drain::no_shutdown_before;
pub use drain::payload_of;
pub use drain::state_of;
pub use drain::stop_index;
pub use drain::views;
pub use drain::work_on;
pub use drain::write_record;

pub use worker::handle_outcome;
pub use worker::outcome_payload;
pub use worker::outcome_state;
pub use worker::Worker;

pub use handle::construct;
pub use handle::Handle;

pub use session::burst_views;
pub use session::has_shutdown;
pub use session::run_session;
pub use session::session_bytes;
pub use session::session_cycles;
pub use session::session_drained;
pub use session::stop_burst;

pub use laws::concat_payloads;
pub use laws::lemma_disconnection_terminates;
pub use laws::lemma_nothing_after_shutdown;
pub use laws::lemma_single_producer_ordering;
pub use laws::lemma_write_failure_isolated;

pub use record::level_verbosity;
pub use record::verbosity;
pub use record::Level;
pub use record::Metadata;
pub use record::Record;

pub use filter::custom_verdict;
pub use filter::filter_verdict;
pub use filter::max_level_verdict;
pub use filter::CustomFilter;
pub use filter::Filter;
pub use filter::FilterResult;
pub use filter::MaxLevel;

pub use layout::copy_bytes;
pub use layout::IdenticalLayout;
pub use layout::Layout;

pub use append::line_bytes;
pub use append::Append;
pub use append::AppendError;
pub use append::AppendImpl;
pub use append::Stderr;
pub use append::Stdout;
