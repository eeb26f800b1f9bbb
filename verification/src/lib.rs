//! Protocol core for an ER302-style contactless card reader.
//!
//! The reader speaks a framed binary protocol over a serial line:
//! every command and response is `HEADER | LENGTH | PAYLOAD | CHECKSUM`.
//! This crate holds the frame codec, the catalog of command payloads,
//! and the workflow engine that chains commands into card operations
//! (identify, read balance, write balance, initialize a card).
//! The serial transport itself is left to the caller: the workflows are
//! pure functions from the sequence of transport events to a trace of
//! sent payloads and a final outcome.

pub mod codec;
pub mod commands;
pub mod text;
pub mod laws;
pub mod workflow;
