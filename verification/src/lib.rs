//! Ogg Opus packets turned into a pull-based stream of 16-bit PCM samples.
//!
//! The library owns everything between the container and the codec: it reads
//! packets from an in-memory Ogg stream, resolves the frame geometry that the
//! first byte of each packet announces, sizes the buffer that the codec fills,
//! and serves the decoded samples one at a time. The codec and the header
//! parser stay with the caller: the library hands out a request and takes the
//! outcome back.

pub mod bits;
pub mod chunk;
pub mod cursor;
pub mod decoder;
pub mod error;
pub mod metadata;
pub mod stream;
pub mod toc;
