//! Requests that a client sends once its connection is open.

use vstd::prelude::*;

verus! {

/// An application request.
#[derive(Debug, Clone)]
pub enum CommunicationRequest {
    AIRequest { prompt: String },
}

/// A request about the connection itself.
#[derive(Debug, Clone)]
pub enum ConnectionRequest {
    StartConnection,
    Disconnect { session_id: String, user_id: u64 },
}

} // verus!
