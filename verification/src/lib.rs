//! A tunnel that puts a local HTTP server behind a public relay.
//!
//! A client connects to the relay and gets a public address. The relay turns each HTTP request
//! for that address into a message to the client, the client asks the local server, and the
//! response goes back the same way. The library holds what the two ends decide and compute; it
//! does no input or output.

pub mod agent;
pub mod base64_text;
pub mod headers;
pub mod ident;
pub mod laws;
pub mod message;
pub mod relay;
pub mod table;
pub mod text;

pub use agent::{Action, App, Event, LocalOutcome, LocalReply, LocalRequest};
pub use headers::{is_safe_request_header, is_safe_response_header, Headers, RawHeader};
pub use message::{TunnelMessage, TunnelRequest, TunnelResponse};
pub use relay::{AppState, HttpReply, IncomingRequest, Opened, SocketEvent, SocketStep};
pub use table::Table;
