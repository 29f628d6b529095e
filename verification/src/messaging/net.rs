//! The Cortex network protocol: what one node sends to another.
use vstd::prelude::*;

use crate::CortexCommand;

verus! {

/// The port every Cortex node listens on.
pub const CORTEX_PORT: u16 = 32503;

/// The full message sent to another node: the queries and responses that
/// the dispatcher gathered for that node.
pub struct NetworkMessage {
    pub queries: Vec<NetworkQuery>,
    pub responses: Vec<NetworkResponse>,
}

/// A query sent to another node.
pub struct NetworkQuery {
    pub query_id: u32,
    pub cmd: CortexCommand,
}

/// A response to a query that another node sent.
pub struct NetworkResponse {
    pub query_id: u32,
    pub res: u8,
}

impl NetworkQuery {
    pub fn new(query_id: u32, cmd: CortexCommand) -> (q: NetworkQuery)
        ensures
            q.query_id == query_id,
            q.cmd == cmd,
    {
        NetworkQuery { query_id: query_id, cmd: cmd }
    }
}

impl NetworkMessage {
    /// A message with no queries and no responses.
    pub fn new() -> (m: NetworkMessage)
        ensures
            m.queries@.len() == 0,
            m.responses@.len() == 0,
    {
        NetworkMessage { queries: Vec::new(), responses: Vec::new() }
    }

    /// Appends a query; the responses are left as they were.
    pub fn add_query(&mut self, query: NetworkQuery)
        ensures
            final(self).queries@ == old(self).queries@.push(query),
            final(self).responses@ == old(self).responses@,
    {
        self.queries.push(query);
    }

    /// Appends a response; the queries are left as they were.
    pub fn add_response(&mut self, res: NetworkResponse)
        ensures
            final(self).responses@ == old(self).responses@.push(res),
            final(self).queries@ == old(self).queries@,
    {
        self.responses.push(res);
    }
}

} // verus!
