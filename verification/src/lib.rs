//! tinylord: a tiny schemaless realtime document datastore.
//!
//! The library decides; it does not talk to disks, sockets, or clocks of its own
//! accord. Work on a database is a run: it says which statement comes next, takes what
//! the engine replied, and in the end says what is answered and announced.

pub mod admin;
pub mod answer_laws;
pub mod auth;
pub mod batch;
pub mod browser_auth;
pub mod cli;
pub mod config;
pub mod control_laws;
pub mod course_laws;
pub mod data_op;
pub mod document_laws;
pub mod documents;
pub mod encryption;
pub mod engine;
pub mod errors;
pub mod files;
pub mod filter_laws;
pub mod form_laws;
pub mod grants;
pub mod ids;
pub mod index_op;
pub mod indexes;
pub mod intake;
pub mod json;
pub mod limits;
pub mod openapi;
pub mod projection;
pub mod promise_laws;
pub mod pubsub;
pub mod query;
pub mod query_ep;
pub mod query_laws;
pub mod read_laws;
pub mod readings;
pub mod realtime;
pub mod rekey;
pub mod schema;
pub mod secret;
pub mod sequence;
pub mod session_laws;
pub mod sessions;
pub mod sql;
pub mod system;
pub mod text;
pub mod tokens;
pub mod writer;
