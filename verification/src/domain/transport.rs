use crate::domain::error::TransportError;
use vstd::prelude::*;

verus! {

/// A connection to the remote endpoint.
///
/// Both `connect` and `send_packet` may take as long as the network needs;
/// the pipeline calls them one at a time and waits for each to return. It
/// assumes nothing about their results.
pub trait MediaTransport: Send + Sync {
    fn connect(&self, signaling_url: &str) -> Result<(), TransportError>;

    fn send_packet(&self, packet: &[u8]) -> Result<(), TransportError>;

    fn is_connected(&self) -> bool;
}

} // verus!
