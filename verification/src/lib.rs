//! A client-side MQTT 3.1.1 session engine.
//!
//! The engine holds the whole state of one session and decides every step of
//! it: which packets are written, what an inbound packet does to the delivery
//! queues, the stores and the subscription registry, when a ping is due and
//! when the link is given up. It performs no input or output itself. Packets
//! to be written collect in the client's outbox, and each call tells the
//! caller, through an [`Action`](client::Action), what to do on the stream next.

pub mod client;
pub mod error;
pub mod laws;
pub mod message;
pub mod model;
pub mod options;
pub mod packet;
pub mod pid;
pub mod store;
pub mod sub;
pub mod topic;

pub use client::{Action, Client, Output, Pending};
pub use error::{Error, IoFailure};
pub use message::{Message, PubOpt, QoS};
pub use model::ClientState;
pub use options::{ClientOptions, ReconnectMethod, Route};
pub use packet::Packet;
pub use pid::PacketIdentifier;
pub use store::{MemoryStorage, Store};
pub use sub::{Subscription, Subscriptions};
