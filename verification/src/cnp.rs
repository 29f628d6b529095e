//! The Cortex network protocol as the dispatcher sees it: the full message
//! to another node, and the pieces that worker threads hand to the
//! dispatcher and get back from it.
use vstd::prelude::*;

use crate::CortexNode;

verus! {

/// The full message to be sent to another node.
pub struct CortexMessage {
    pub hearbeat: bool,
    pub queries: Vec<MessageQuery>,
    pub responses: Vec<MessageResponse>,
}

/// A query between nodes.
pub struct MessageQuery {
    pub query_id: u32,
    pub cmd: CortexCommand,
}

/// A response between nodes.
pub struct MessageResponse {
    pub query_id: u32,
    pub res: u8,
}

/// A query that a worker thread asks the dispatcher to send.
pub struct DispatcherQuery {
    pub query_id: u32,
    pub dst: CortexNode,
    pub cmd: CortexCommand,
}

/// A response that the dispatcher hands to a worker thread.
pub struct DispatcherResponse {
    pub query_id: u32,
    pub res: u8,
}

/// The commands of this protocol.
#[derive(Clone, Copy, Debug, PartialEq, Eq, Structural)]
pub enum CortexCommand {
    SendSuccessors,
}

impl CortexMessage {
    /// A message carrying the given queries and responses, not a heartbeat.
    pub fn new(queries: Vec<MessageQuery>, responses: Vec<MessageResponse>) -> (m: CortexMessage)
        ensures
            !m.hearbeat,
            m.queries@ == queries@,
            m.responses@ == responses@,
    {
        CortexMessage { hearbeat: false, queries: queries, responses: responses }
    }
}

} // verus!
