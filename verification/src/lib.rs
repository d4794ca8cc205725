//! Acquisition and ordered assembly of a multi-chapter work.
//!
//! A work is fetched chapter by chapter, each chapter through its own fetch
//! task with a bounded retry budget. Completed outcomes arrive in arbitrary
//! order; the aggregator collects them, fails the whole run on any terminal
//! failure, and otherwise reassembles the chapters in strict ordinal order.
//! The assembled work is then fed, chapter by chapter, to the container
//! builder. The surrounding I/O (the transport, the markup adapter that
//! extracts a chapter's title and body, and the file write of the rendered
//! container) lives outside this crate and talks to it through plain values.

pub mod gate;
pub mod pool;
pub mod model;
pub mod outcome;
pub mod content;
pub mod retry;
pub mod aggregate;
pub mod ops;
pub mod package;
