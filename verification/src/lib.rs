//! Core of a Cortex node: node identity in the distributed hash table,
//! the messages that nodes and worker threads exchange, the dispatcher's
//! routing table, and the job and host rules of the Cortex scheduler.
pub mod chord;
pub mod cli;
pub mod cnp;
pub mod dispatch;
pub mod jobs;
pub mod messaging;
pub mod outside;
pub mod server;
pub mod text;

use vstd::prelude::*;
use vstd::utf8::encode_utf8;

use crate::outside::{local_ip_text, sha256, sha256_digest};

verus! {

/// A node of the Cortex network: its identifier on the hash ring and the
/// socket address it listens on, written as `ip:port`.
pub struct CortexNode {
    pub dht_id: u128,
    pub socket: String,
}

/// Value of a byte string read as a big-endian unsigned number.
pub open spec fn big_endian_value(bytes: Seq<u8>) -> nat
    decreases bytes.len(),
{
    if bytes.len() == 0 {
        0
    } else {
        big_endian_value(bytes.drop_last()) * 256 + bytes.last() as nat
    }
}

/// `256` to the power `n`.
pub open spec fn pow256(n: nat) -> nat
    decreases n,
{
    if n == 0 {
        1
    } else {
        256 * pow256((n - 1) as nat)
    }
}

/// The identifier that `consistent_hash` gives to a byte string: the first
/// half (16 bytes) of its SHA-256 digest, read as a big-endian `u128`.
pub open spec fn hash_id(data: Seq<u8>) -> int {
    big_endian_value(sha256(data).take(16)) as int
}

proof fn lemma_big_endian_bound(bytes: Seq<u8>)
    ensures
        big_endian_value(bytes) < pow256(bytes.len()),
    decreases bytes.len(),
{
    if bytes.len() > 0 {
        let init = bytes.drop_last();
        lemma_big_endian_bound(init);
        let v = big_endian_value(init);
        let p = pow256(init.len());
        let b = bytes.last() as nat;
        assert(v * 256 + b < 256 * p) by (nonlinear_arith)
            requires
                v < p,
                b < 256,
        ;
    }
}

/// Hashes `data` to a position on the ring: SHA-256, cut in half so that
/// the identifier fits a `u128`, read big-endian.
pub fn consistent_hash(data: &[u8]) -> (id: u128)
    ensures
        id == hash_id(data@),
{
    let digest = sha256_digest(data);
    let mut value: u128 = 0;
    let mut i: usize = 0;
    while i < 16
        invariant
            i <= 16,
            digest@.len() == 32,
            value == big_endian_value(digest@.take(i as int)),
        decreases 16 - i,
    {
        proof {
            lemma_big_endian_bound(digest@.take(i as int));
            assert(pow256(16) == 0x1_0000_0000_0000_0000_0000_0000_0000_0000) by {
                reveal_with_fuel(pow256, 17);
            }
            lemma_pow256_monotone(i as nat, 15);
            assert(digest@.take(i as int + 1).drop_last() =~= digest@.take(i as int));
        }
        value = value * 256 + digest[i] as u128;
        i = i + 1;
    }
    assert(digest@.take(16) =~= sha256(data@).take(16));
    value
}

proof fn lemma_pow256_monotone(a: nat, b: nat)
    requires
        a <= b,
    ensures
        pow256(a) <= pow256(b),
    decreases b,
{
    if a < b {
        lemma_pow256_monotone(a, (b - 1) as nat);
    }
}

/// Why the node has no identifier.
pub enum DhtIdError {
    /// The local IP address could not be found.
    LocalIpUnavailable,
}

impl DhtIdError {
    /// The text that reports the error.
    pub fn message(&self) -> (text: &'static str)
        ensures
            text@ == "Failed to fetch local ip address"@,
    {
        match self {
            DhtIdError::LocalIpUnavailable => "Failed to fetch local ip address",
        }
    }
}

/// The node's identifier given the outcome of looking up its local IP
/// address: the hash of the address's text.
pub fn dht_id_from_local_ip(ip: Result<String, local_ip_address::Error>) -> (id: Result<
    u128,
    DhtIdError,
>)
    ensures
        match ip {
            Ok(text) => id matches Ok(v) && v == hash_id(encode_utf8(text@)),
            Err(_) => id is Err,
        },
{
    match ip {
        Ok(text) => Ok(consistent_hash(text.as_str().as_bytes())),
        Err(_) => Err(DhtIdError::LocalIpUnavailable),
    }
}

/// Hashes this machine's local IP address to compute the node's identifier.
pub fn get_dht_id() -> (id: Result<u128, DhtIdError>)
    ensures
        id is Ok ==> exists|address: Seq<char>| id->Ok_0 == hash_id(encode_utf8(address)),
{
    dht_id_from_local_ip(local_ip_text())
}

/// Every command one node can ask of another.
#[derive(Clone, Copy, Debug, PartialEq, Eq, Structural)]
pub enum CortexCommand {
    SendSuccessors,
    Heartbeat,
    Forward,
}

/// Where a worker thread wants a query to go.
pub enum DestinationType {
    Single(CortexNode),
    Successors,
    Predecessor,
}

} // verus!
