//! Decision logic of a TCP port forwarder.
//!
//! Each forwarded connection is a session made of two streams, the local
//! client and the remote server, and two directions that copy bytes between
//! them. The socket work (accepting, connecting, reading, writing, closing)
//! is done by the caller; this crate decides what happens next and proves
//! that the bytes handed out for writing are exactly the bytes read, in
//! order, and that every stream of a session is closed exactly once.

pub mod pump;
pub mod session;
