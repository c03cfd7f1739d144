//! Gossip admission pipeline for a peer-to-peer blockchain node.
//!
//! Every inbound transaction and block passes through this gate before it is
//! accepted into local state and re-broadcast to the network. The crate covers
//! the admission/propagation protocol itself: deduplicating admission into a
//! pending-transaction pool, policy rejection (consensus-invalid or
//! coinbase-style transactions arriving over gossip), and best-effort fan-out
//! to the connected peers, never echoing a message back to its originator or
//! to the local node.
//!
//! The consensus rule engine, the ledger, wire-format codecs and the transport
//! are external collaborators: their verdicts and events enter the pipeline as
//! plain values, and outbound messages leave through per-peer channels that an
//! adapter drains.

pub mod channel;
pub mod context;
pub mod fanout;
pub mod laws;
pub mod message;
pub mod peer;
pub mod pipeline;
pub mod pool;
pub mod transaction;

pub use channel::ChannelTable;
pub use channel::OutboundChannel;
pub use channel::SendAttempt;
pub use context::NodeContext;
pub use message::MessageKind;
pub use message::MessageView;
pub use message::WireMessage;
pub use peer::PeerAddress;
pub use peer::PeerRegistry;
pub use pipeline::process_transaction_internal;
pub use pipeline::propagate_block;
pub use pipeline::DecodeOutcome;
pub use pipeline::RejectReason;
pub use pipeline::TxOutcome;
pub use pipeline::ValidationEngineError;
pub use pipeline::ValidationOutcome;
pub use pool::AdmissionPool;
pub use pool::AdmitOutcome;
pub use transaction::Transaction;
pub use transaction::TransactionRecord;
