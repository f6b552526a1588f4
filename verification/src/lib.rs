//! Capture and revision pipeline for locally recorded calls.
//!
//! A call is recorded by an external capture process, transcribed by a
//! speech-to-text engine and summarized by a text-generation engine. This
//! library holds the rules of that pipeline and proves them; running the
//! processes, the files and the database are the caller's part.
//!
//! Recording:
//! - [`capture`] chooses the backend for a set of sources and builds its
//!   command line;
//! - [`telemetry`] reads the recorder's diagnostics into a byte counter
//!   that never regresses;
//! - [`registry`] keeps the sessions that are recording;
//! - [`shutdown`] decides how a recorder is paused and how long it is waited
//!   for when it is asked to quit;
//! - [`finalize`] reconciles a fresh segment with the audio that an entry
//!   had before.
//!
//! Revisions:
//! - [`revisions`] is the model of the versioned transcripts and artifacts;
//! - [`store`] holds them and appends to them;
//! - [`revision_laws`] states what holds of every store;
//! - [`pipeline`] carries results into the store and onto the entry;
//! - [`entry`] is the entry with its life cycle, [`artifact`] the kinds of
//!   artifact with their prompts.
//!
//! Around them: [`devices`] and [`platform`] read what the host offers,
//! [`transcription`] prepares and reads the speech-to-text engine,
//! [`export`] writes an entry out as a document, [`identity`] brings
//! identifiers and times in, and [`text`] and [`decimal`] are the text
//! handling that the parsers share.

pub mod artifact;
pub mod capture;
pub mod decimal;
pub mod devices;
pub mod entry;
pub mod export;
pub mod finalize;
pub mod identity;
pub mod pipeline;
pub mod platform;
pub mod registry;
pub mod revision_laws;
pub mod revisions;
pub mod shutdown;
pub mod store;
pub mod telemetry;
pub mod text;
pub mod transcription;
