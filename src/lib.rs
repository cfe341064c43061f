//! A peer-to-peer chat node's application layer: a self-describing wire
//! codec, a directory of announced names, the receive-side rendering step,
//! the input hand-off slot and the session's lifecycle.
pub mod bridge;
pub mod codec;
pub mod directory;
pub mod error;
pub mod peer;
pub mod receive;
pub mod session;
mod text;
