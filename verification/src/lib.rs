//! Origin-side control plane for a disposable cloud proxy.
//!
//! The crate holds the pure logic of the controller: endpoint and port-map
//! parsing, key-material assembly, tunnel subnet selection, the cloud-stack
//! template renderer, the stack driver's decision rules, the tunnel
//! configuration renderer, the packet-filter statistics parser, and the
//! lifecycle state machine that orders deployment and cleanup.

pub mod errors;
pub mod text;
pub mod endpoint;
pub mod service;
pub mod jsontext;
pub mod template;
pub mod stack;
pub mod lifecycle;
pub mod keys;
pub mod tunnel;
pub mod subnet;
pub mod stats;
pub mod dashboard;
pub mod cloudflare;
