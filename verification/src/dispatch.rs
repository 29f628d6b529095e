//! The dispatcher: it gathers what worker threads and other nodes send,
//! and remembers which worker waits for the answer to which query.
use vstd::prelude::*;

use std::collections::HashMap;
use tokio::sync::oneshot;

use crate::messaging::net::{NetworkMessage, NetworkQuery, NetworkResponse};
use crate::{CortexCommand, DestinationType};

verus! {

broadcast use vstd::std_specs::hash::group_hash_axioms;

/// `tokio::sync::oneshot::Sender`, carried opaquely.
#[verifier::external_type_specification]
#[verifier::external_body]
#[verifier::reject_recursive_types(T)]
pub struct ExOneshotSender<T>(oneshot::Sender<T>);

/// `tokio::sync::oneshot::Receiver`, carried opaquely.
#[verifier::external_type_specification]
#[verifier::external_body]
#[verifier::reject_recursive_types(T)]
pub struct ExOneshotReceiver<T>(oneshot::Receiver<T>);

/// `tokio::sync::oneshot::error::RecvError`, carried opaquely: the error a
/// `oneshot::Receiver` yields, as its `Future` output, when the sender was
/// dropped without sending.
#[verifier::external_type_specification]
#[verifier::external_body]
pub struct ExOneshotRecvError(oneshot::error::RecvError);

/// For each query id in flight, the worker thread that the answer belongs to.
pub struct ThreadRoutingTable {
    table: HashMap<u32, Entry>,
}

/// The query came from a worker; its response will be sent back on the channel.
pub struct FromWorkerEntry {
    pub to_worker_channel: oneshot::Sender<LocalResponse>,
    pub age: u16,
}

/// The query was sent to a worker; its response will come on the channel.
pub struct ToWorkerEntry {
    pub from_worker_channel: oneshot::Receiver<LocalResponse>,
    pub age: u16,
}

/// A row of the routing table.
pub enum Entry {
    FromWorker(FromWorkerEntry),
    ToWorker(ToWorkerEntry),
}

/// A query from a worker thread. It carries a channel for the response
/// when the worker needs one, and no channel when it does not.
pub struct LocalQuery {
    pub query_id: u32,
    pub opt_send_response_channel: Option<oneshot::Sender<LocalResponse>>,
    pub cmd: CortexCommand,
    pub dst: DestinationType,
}

/// A response handed to a worker thread.
pub struct LocalResponse {
    pub query_id: u32,
    pub res: u8,
}

/// What a worker thread sends to the dispatcher.
pub enum LocalMessage {
    Query(LocalQuery),
    Response(LocalResponse),
}

impl View for ThreadRoutingTable {
    type V = Map<u32, Entry>;

    closed spec fn view(&self) -> Map<u32, Entry> {
        self.table@
    }
}

/// The table after the queries `qs`, in order, went through
/// `add_from_worker_queries`: each query that carries a response channel
/// gets a fresh from-worker row under its id; a later query with the same
/// id replaces the row of an earlier one.
pub open spec fn route_from_worker(m: Map<u32, Entry>, qs: Seq<LocalQuery>) -> Map<u32, Entry>
    decreases qs.len(),
{
    if qs.len() == 0 {
        m
    } else {
        let before = route_from_worker(m, qs.drop_last());
        let q = qs.last();
        match q.opt_send_response_channel {
            Some(c) => before.insert(
                q.query_id,
                Entry::FromWorker(FromWorkerEntry { to_worker_channel: c, age: 0 }),
            ),
            None => before,
        }
    }
}

impl ThreadRoutingTable {
    /// An empty routing table.
    pub fn new() -> (t: ThreadRoutingTable)
        ensures
            t@ == Map::<u32, Entry>::empty(),
    {
        ThreadRoutingTable { table: HashMap::new() }
    }

    fn add_entry(&mut self, query_id: u32, entry: Entry)
        ensures
            final(self)@ == old(self)@.insert(query_id, entry),
    {
        self.table.insert(query_id, entry);
    }

    fn remove_entry(&mut self, query_id: u32)
        ensures
            final(self)@ == old(self)@.remove(query_id),
            !final(self)@.contains_key(query_id),
    {
        self.table.remove(&query_id);
    }

    /// Whether a row exists for the query id.
    pub fn contains(&self, query_id: u32) -> (b: bool)
        ensures
            b == self@.contains_key(query_id),
    {
        self.table.contains_key(&query_id)
    }

    /// Records, for each worker query that needs a response, the channel to
    /// answer it on. Queries without a channel leave no row.
    pub fn add_from_worker_queries(&mut self, queries: Vec<LocalQuery>)
        ensures
            final(self)@ == route_from_worker(old(self)@, queries@),
    {
        let ghost start = self@;
        let ghost qs = queries@;
        for query in it: queries.into_iter()
            invariant
                it.seq() == qs,
                self@ == route_from_worker(start, qs.take(it.index() as int)),
        {
            proof {
                assert(qs.take(it.index() + 1).drop_last() =~= qs.take(it.index() as int));
            }
            let query_id = query.query_id;
            if let Some(to_worker_channel) = query.opt_send_response_channel {
                let from_worker_entry = FromWorkerEntry { to_worker_channel: to_worker_channel, age: 0 };
                self.add_entry(query_id, Entry::FromWorker(from_worker_entry));
            }
        }
        proof {
            assert(qs.take(qs.len() as int) =~= qs);
        }
    }
}

/// All queries of the messages, message by message, each in its order.
pub open spec fn network_queries_of(msgs: Seq<NetworkMessage>) -> Seq<NetworkQuery>
    decreases msgs.len(),
{
    if msgs.len() == 0 {
        Seq::empty()
    } else {
        network_queries_of(msgs.drop_last()) + msgs.last().queries@
    }
}

/// All responses of the messages, message by message, each in its order.
pub open spec fn network_responses_of(msgs: Seq<NetworkMessage>) -> Seq<NetworkResponse>
    decreases msgs.len(),
{
    if msgs.len() == 0 {
        Seq::empty()
    } else {
        network_responses_of(msgs.drop_last()) + msgs.last().responses@
    }
}

/// Adding a row under an id the table lacks and then removing the row
/// under that id gives back the table.
pub proof fn lemma_add_then_remove_entry(table: Map<u32, Entry>, query_id: u32, entry: Entry)
    requires
        !table.contains_key(query_id),
    ensures
        table.insert(query_id, entry).remove(query_id) == table,
{
    assert(table.insert(query_id, entry).remove(query_id) =~= table);
}

/// After routing worker queries, the table has a row for exactly the ids of
/// the queries that carry a response channel, besides the rows it had; rows
/// under other ids are left as they were.
pub proof fn lemma_route_from_worker_rows(m: Map<u32, Entry>, qs: Seq<LocalQuery>, id: u32)
    ensures
        route_from_worker(m, qs).contains_key(id) <==> (m.contains_key(id) || exists|i: int|
            0 <= i < qs.len() && (#[trigger] qs[i]).query_id == id
                && qs[i].opt_send_response_channel is Some),
        !(exists|i: int|
            0 <= i < qs.len() && (#[trigger] qs[i]).query_id == id
                && qs[i].opt_send_response_channel is Some) ==> route_from_worker(m, qs).contains_key(id) == m.contains_key(id)
            && (m.contains_key(id) ==> route_from_worker(m, qs)[id] == m[id]),
    decreases qs.len(),
{
    if qs.len() > 0 {
        let init = qs.drop_last();
        lemma_route_from_worker_rows(m, init, id);
        if exists|i: int|
            0 <= i < init.len() && (#[trigger] init[i]).query_id == id
                && init[i].opt_send_response_channel is Some {
            let i = choose|i: int|
                0 <= i < init.len() && (#[trigger] init[i]).query_id == id
                    && init[i].opt_send_response_channel is Some;
            assert(qs[i] == init[i]);
        }
        if exists|i: int|
            0 <= i < qs.len() && (#[trigger] qs[i]).query_id == id
                && qs[i].opt_send_response_channel is Some {
            let i = choose|i: int|
                0 <= i < qs.len() && (#[trigger] qs[i]).query_id == id
                    && qs[i].opt_send_response_channel is Some;
            if i < qs.len() - 1 {
                assert(init[i] == qs[i]);
            }
        }
    }
}

/// Moves the queries and the responses out of the incoming messages: the
/// queries of all messages, in order, and likewise the responses. The
/// messages stay, emptied.
pub fn parse_network_messages(msgs: &mut Vec<NetworkMessage>) -> (parts: (
    Vec<NetworkQuery>,
    Vec<NetworkResponse>,
))
    ensures
        parts.0@ == network_queries_of(old(msgs)@),
        parts.1@ == network_responses_of(old(msgs)@),
        parts.0@ == old(msgs)@.map_values(|m: NetworkMessage| m.queries@).flatten(),
        parts.1@ == old(msgs)@.map_values(|m: NetworkMessage| m.responses@).flatten(),
        final(msgs)@.len() == old(msgs)@.len(),
        forall|i: int|
            0 <= i < final(msgs)@.len() ==> (#[trigger] final(msgs)@[i]).queries@.len() == 0
                && final(msgs)@[i].responses@.len() == 0,
{
    let mut network_queries: Vec<NetworkQuery> = Vec::new();
    let mut network_responses: Vec<NetworkResponse> = Vec::new();
    let mut incoming: Vec<NetworkMessage> = Vec::new();
    std::mem::swap(&mut incoming, msgs);
    let ghost ms = incoming@;
    for msg in it: incoming.into_iter()
        invariant
            it.seq() == ms,
            msgs@.len() == it.index(),
            network_queries@ == network_queries_of(ms.take(it.index() as int)),
            network_responses@ == network_responses_of(ms.take(it.index() as int)),
            forall|i: int|
                0 <= i < msgs@.len() ==> (#[trigger] msgs@[i]).queries@.len() == 0
                    && msgs@[i].responses@.len() == 0,
    {
        proof {
            assert(ms.take(it.index() + 1).drop_last() =~= ms.take(it.index() as int));
        }
        let mut msg = msg;
        network_queries.append(&mut msg.queries);
        network_responses.append(&mut msg.responses);
        msgs.push(msg);
    }
    proof {
        assert(ms.take(ms.len() as int) =~= ms);
        lemma_network_parts_are_flattened(ms);
    }
    (network_queries, network_responses)
}

/// The queries among the worker messages, in order.
pub open spec fn local_queries_of(msgs: Seq<LocalMessage>) -> Seq<LocalQuery>
    decreases msgs.len(),
{
    if msgs.len() == 0 {
        Seq::empty()
    } else {
        let before = local_queries_of(msgs.drop_last());
        match msgs.last() {
            LocalMessage::Query(q) => before.push(q),
            LocalMessage::Response(_) => before,
        }
    }
}

/// The responses among the worker messages, in order.
pub open spec fn local_responses_of(msgs: Seq<LocalMessage>) -> Seq<LocalResponse>
    decreases msgs.len(),
{
    if msgs.len() == 0 {
        Seq::empty()
    } else {
        let before = local_responses_of(msgs.drop_last());
        match msgs.last() {
            LocalMessage::Query(_) => before,
            LocalMessage::Response(r) => before.push(r),
        }
    }
}

/// Splits the messages of worker threads into their queries and their
/// responses, each kept in arrival order.
pub fn parse_worker_thread_messages(msgs: Vec<LocalMessage>) -> (parts: (
    Vec<LocalQuery>,
    Vec<LocalResponse>,
))
    ensures
        parts.0@ == local_queries_of(msgs@),
        parts.1@ == local_responses_of(msgs@),
        parts.0@ == msgs@.filter(|m: LocalMessage| m is Query).map_values(
            |m: LocalMessage| m->Query_0,
        ),
        parts.1@ == msgs@.filter(|m: LocalMessage| m is Response).map_values(
            |m: LocalMessage| m->Response_0,
        ),
{
    let mut local_queries: Vec<LocalQuery> = Vec::new();
    let mut local_responses: Vec<LocalResponse> = Vec::new();
    let ghost ms = msgs@;
    for msg in it: msgs.into_iter()
        invariant
            it.seq() == ms,
            local_queries@ == local_queries_of(ms.take(it.index() as int)),
            local_responses@ == local_responses_of(ms.take(it.index() as int)),
    {
        proof {
            assert(ms.take(it.index() + 1).drop_last() =~= ms.take(it.index() as int));
        }
        match msg {
            LocalMessage::Query(q) => {
                local_queries.push(q);
            },
            LocalMessage::Response(r) => {
                local_responses.push(r);
            },
        }
    }
    proof {
        assert(ms.take(ms.len() as int) =~= ms);
        lemma_worker_parts_are_payloads(ms);
    }
    (local_queries, local_responses)
}

/// Gathering network queries (responses) is flattening: the result is the
/// messages' own query (response) lists laid end to end, message by
/// message, each element as it was.
pub proof fn lemma_network_parts_are_flattened(msgs: Seq<NetworkMessage>)
    ensures
        network_queries_of(msgs) == msgs.map_values(|m: NetworkMessage| m.queries@).flatten(),
        network_responses_of(msgs) == msgs.map_values(|m: NetworkMessage| m.responses@).flatten(),
    decreases msgs.len(),
{
    let qs = msgs.map_values(|m: NetworkMessage| m.queries@);
    let rs = msgs.map_values(|m: NetworkMessage| m.responses@);
    qs.lemma_flatten_and_flatten_alt_are_equivalent();
    rs.lemma_flatten_and_flatten_alt_are_equivalent();
    if msgs.len() > 0 {
        lemma_network_parts_are_flattened(msgs.drop_last());
        let init = msgs.drop_last();
        init.map_values(|m: NetworkMessage| m.queries@).lemma_flatten_and_flatten_alt_are_equivalent();
        init.map_values(|m: NetworkMessage| m.responses@).lemma_flatten_and_flatten_alt_are_equivalent();
        assert(qs.drop_last() =~= init.map_values(|m: NetworkMessage| m.queries@));
        assert(rs.drop_last() =~= init.map_values(|m: NetworkMessage| m.responses@));
    } else {
        assert(qs.flatten_alt() =~= Seq::<NetworkQuery>::empty());
        assert(rs.flatten_alt() =~= Seq::<NetworkResponse>::empty());
    }
}

/// Sorting worker messages keeps every query and every response exactly as
/// the worker sent it (a query keeps its response channel), in arrival
/// order: the queries are the payloads of the query messages, the responses
/// those of the response messages.
pub proof fn lemma_worker_parts_are_payloads(msgs: Seq<LocalMessage>)
    ensures
        local_queries_of(msgs) == msgs.filter(|m: LocalMessage| m is Query).map_values(
            |m: LocalMessage| m->Query_0,
        ),
        local_responses_of(msgs) == msgs.filter(|m: LocalMessage| m is Response).map_values(
            |m: LocalMessage| m->Response_0,
        ),
    decreases msgs.len(),
{
    reveal(Seq::filter);
    if msgs.len() > 0 {
        let init = msgs.drop_last();
        lemma_worker_parts_are_payloads(init);
        let fq = init.filter(|m: LocalMessage| m is Query);
        let fr = init.filter(|m: LocalMessage| m is Response);
        assert(fq.push(msgs.last()).map_values(|m: LocalMessage| m->Query_0) =~= fq.map_values(
            |m: LocalMessage| m->Query_0,
        ).push(msgs.last()->Query_0));
        assert(fr.push(msgs.last()).map_values(|m: LocalMessage| m->Response_0) =~= fr.map_values(
            |m: LocalMessage| m->Response_0,
        ).push(msgs.last()->Response_0));
    } else {
        assert(msgs.filter(|m: LocalMessage| m is Query).map_values(|m: LocalMessage| m->Query_0)
            =~= Seq::<LocalQuery>::empty());
        assert(msgs.filter(|m: LocalMessage| m is Response).map_values(
            |m: LocalMessage| m->Response_0,
        ) =~= Seq::<LocalResponse>::empty());
    }
}

/// Splitting worker messages loses none and invents none: the queries and
/// the responses together are as many as the messages.
pub proof fn lemma_worker_split_counts(msgs: Seq<LocalMessage>)
    ensures
        local_queries_of(msgs).len() + local_responses_of(msgs).len() == msgs.len(),
    decreases msgs.len(),
{
    if msgs.len() > 0 {
        lemma_worker_split_counts(msgs.drop_last());
    }
}

/// Draining network messages loses no query and no response: the gathered
/// queries (responses) are as many as the messages held together.
pub proof fn lemma_network_split_counts(msgs: Seq<NetworkMessage>)
    ensures
        network_queries_of(msgs).len() == msgs.fold_left(0nat, |n: nat, m: NetworkMessage| n + m.queries@.len()),
        network_responses_of(msgs).len() == msgs.fold_left(0nat, |n: nat, m: NetworkMessage| n + m.responses@.len()),
    decreases msgs.len(),
{
    if msgs.len() > 0 {
        lemma_network_split_counts(msgs.drop_last());
    }
}

} // verus!
