//! Structured decoding access to multimedia containers.
//!
//! The native demux/decode library is an outside collaborator: this library
//! holds the decisions around it (error mapping, the in-memory byte source,
//! the stream catalog, metadata derivation, the video pull state machine, the
//! audio resample pipeline and the seek controller) as verified code over
//! plain values. A host drives the native calls and hands their results in.

pub mod error;
pub mod media;
pub mod byte_source;
pub mod meta;
pub mod stream;
pub mod format;
pub mod audio;

pub use error::FFmpegError;
pub use format::Format;
pub use stream::{Frame, Orientation, Stream};
