//! Transactional transfer of application-owned file descriptors and state between generations.
//!
//! Listening sockets can be preserved without application involvement. Active connections are
//! different: the application must stop using them and preserve any userspace protocol state before
//! they can move. This module supplies the wire format and the transaction boundary while leaving
//! those protocol-specific steps to the application.
//!
//! Nothing here performs I/O. A step of the protocol that sends returns the bytes of one datagram;
//! a step that receives takes one [`Datagram`]. Descriptors are carried along as values of a type
//! that the caller chooses, and are never looked into.

pub mod big_endian;
pub mod error;
pub mod item;
pub mod laws;
pub mod limits;
pub mod operations;
pub mod session;
pub mod wire;

pub use error::HandoverError;
pub use item::HandoverItem;
pub use limits::{HandoverLimits, SupportedVersions};
pub use session::{
    AwaitingPrepared, HandoverPeer, HandoverRequest, IncomingHandover, OutgoingHandover,
    PreparedHandover, PreparedIncoming,
};
pub use wire::Datagram;
