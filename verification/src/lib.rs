//! An in-process application-performance-monitoring core: a registry of
//! transactions, each holding a tree of timed spans with verified
//! self-time accounting; a serializer that renders a finished tree as
//! its wire JSON; and the decision logic of the output pipeline that
//! ships finished traces to a collector — queueing, handshake
//! classification, acknowledgment handling and bounded backoff.
//!
//! Timestamps are integer ticks of a caller-chosen resolution. The
//! sockets, threads and sleeps around the pipeline live outside the
//! library and only carry values to and from it.

pub mod guid;
pub mod output;
pub mod registry;
pub mod serialize;
pub mod spans;
