//! Beacon Atlas relay client core: base-URL normalisation, endpoint
//! addresses, agent key derivation, request payloads and the relay's
//! accept/reject rule, each stated and proved with Verus.
//!
//! The HTTP transport itself lives outside this library; it hands the
//! library plain values and takes plain values back.

pub mod client;
pub mod payload;
pub mod pubkey;
pub mod reply;
pub mod text;
pub mod types;

pub use client::RelayClient;
pub use payload::{HeartbeatPayload, HeartbeatRequest, RegisterPayload, RegisterRequest};
pub use reply::{heartbeat_verdict, register_verdict, relay_verdict, RelayReply};
pub use types::{DiscoveredAgent, Heartbeat, ProfileUrls, SeoInfo, SeoReport, SeoStats};
