//! Core logic of a protocol-bridging key-value server: the per-operation
//! consistency policy, the storage-dispatch outcome normalization, the
//! per-connection handler state machine, the accept-loop backoff policy, and
//! the graceful-shutdown coordination protocol. The transport, framing, and
//! backing-store round trips live outside this crate; every decision they
//! depend on is made here, under contract.

pub mod accept;
pub mod consistency;
pub mod dispatch;
pub mod handler;
pub mod shutdown;
pub mod store;
pub mod text;
