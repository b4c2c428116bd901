pub mod client;
pub mod json;
pub mod send;

pub use client::RocketClient;
pub use client::RocketClientView;
pub use send::SendOutcome;
pub use send::TransportError;
pub use send::complete_send;
