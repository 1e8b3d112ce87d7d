//! A local static-asset server with dynamic port selection: the decisions
//! and data of the service, verified. Sockets, HTTP and the process-wide
//! state live with the host program.
pub mod mime;
pub mod picker;
pub mod server;
pub mod state;
