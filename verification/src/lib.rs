//! Change-data-capture client core for PostgreSQL logical replication with
//! the `decoderbufs` output plugin.
//!
//! The crate holds the parts of such a client that decide something: the
//! row-change record and its accessors ([`decoderbufs`]), the extraction of
//! typed rows from the column list of a record ([`serde`]), and the assembly
//! of records into transactions together with the session that surfaces them
//! and the commands that manage a replication slot ([`stream`]).
//!
//! Every function carries a contract, and every contract but one is proved.
//! The exception writes a log position as text: it calls `tokio-postgres`,
//! and its contract only gives the text a name. Reading from the wire and
//! decoding protocol buffers is left to the caller.

pub mod decoderbufs;
pub mod serde;
pub mod stream;
