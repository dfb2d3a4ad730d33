//! Core of a userspace FUSE filesystem runtime.
//!
//! The crate models the kernel's FUSE wire protocol: fixed-layout ABI
//! records with an exact byte-level wire form, a bounds- and
//! alignment-checked decoder over request frames, an encoder that
//! assembles length-prefixed reply frames, a recyclable buffer pool,
//! and the dispatch logic that turns a raw request frame into a typed
//! operation and a typed reply into the bytes written back to the
//! kernel. All of it carries contracts that pin the wire bytes down;
//! the process boundary (the `/dev/fuse` descriptor, mounting,
//! threads) lives outside the library and hands it plain byte frames.

pub mod abi;
pub mod buffer;
pub mod c_bytes;
pub mod context;
pub mod decode;
pub mod encode;
pub mod errno;
pub mod file;
pub mod fs;
pub mod kernel;
pub mod memfs;
pub mod ops;
pub mod reply;
pub mod server;
pub mod utils;
pub mod wire;
pub mod write;
