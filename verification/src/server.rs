//! The scheduler's rules about hosts: what it stores of a host, how it
//! queries the host database for a job, and how it marks hosts' states.
pub mod commit;

use vstd::prelude::*;
use vstd::string::*;

use crate::jobs::CortexArgs;
use crate::outside::{to_uppercase, uppercase};

verus! {

/// A host as the host database stores it.
pub struct Host {
    pub id: String,
    pub gpus: i16,
    pub model: String,
    pub make: String,
    pub state: HostState,
    /// The host's IP address, as text.
    pub ip: String,
}

/// Whether a host is free, being committed to a job, or working on one.
#[derive(Clone, Debug)]
pub enum HostState {
    Available,
    Committing(String),
    Working(String),
}

/// The texts of an optional string.
pub open spec fn opt_text(o: Option<String>) -> Option<Seq<char>> {
    match o {
        Some(s) => Some(s@),
        None => None,
    }
}

/// How the host database stores a state: null for an available host,
/// otherwise the state's name and the job id after a colon.
pub open spec fn state_text(state: HostState) -> Option<Seq<char>> {
    match state {
        HostState::Available => None,
        HostState::Committing(job_id) => Some("Committing:"@ + job_id@),
        HostState::Working(job_id) => Some("Working:"@ + job_id@),
    }
}

impl HostState {
    /// The value the host database stores for this state; `None` is null.
    pub fn db_value(&self) -> (v: Option<String>)
        ensures
            opt_text(v) == state_text(*self),
    {
        match self {
            HostState::Available => None,
            HostState::Committing(job_id) => Some(
                String::from_str("Committing:").concat(job_id.as_str()),
            ),
            HostState::Working(job_id) => Some(String::from_str("Working:").concat(job_id.as_str())),
        }
    }
}

/// The host query for a job: hosts with at least `min_gpus` GPUs (compared
/// as the database compares the stored values), of the given make unless
/// any make will do, in the given state, fetched `batch_size` at a time.
pub struct HostQuery {
    pub min_gpus: String,
    pub make: Option<String>,
    pub state: HostState,
    pub batch_size: u32,
}

/// The make that stands for any make.
pub open spec fn any_make() -> Seq<char> {
    "ANY"@
}

/// The make a host must have for a job of make `make`: none when any make
/// will do, else the job's make in upper case.
pub open spec fn make_filter(make: Seq<char>) -> Option<Seq<char>> {
    if make == any_make() {
        None
    } else {
        Some(uppercase(make))
    }
}

/// Jobs whose makes are not `ANY` and agree in upper case filter on the
/// same make.
pub proof fn lemma_make_filter_ignores_case(m1: Seq<char>, m2: Seq<char>)
    requires
        m1 != any_make(),
        m2 != any_make(),
        uppercase(m1) == uppercase(m2),
    ensures
        make_filter(m1) == make_filter(m2),
{
}

/// Only the exact text `ANY` stands for any make: a job of make `any`
/// filters on the make `any` in upper case.
pub proof fn lemma_any_is_case_sensitive()
    ensures
        make_filter("any"@) == Some(uppercase("any"@)),
{
    reveal_strlit("any");
    reveal_strlit("ANY");
    assert("any"@[0] != "ANY"@[0]);
}

/// Whether `q` is the host query for job `args`: the job's GPU count, the
/// make filter of the job's make, available hosts, and a batch of twice the
/// job's redundancy.
pub open spec fn is_query_for(q: HostQuery, args: CortexArgs) -> bool {
    &&& q.min_gpus@ == args.gpus@
    &&& opt_text(q.make) == make_filter(args.make@)
    &&& q.state is Available
    &&& q.batch_size == args.redundancy * 2
}

/// Two jobs that differ only in make, where neither make is `ANY` and the
/// makes agree in upper case, get the same host query: the same GPU bound,
/// make, state and batch size.
pub proof fn lemma_query_ignores_make_case(a1: CortexArgs, a2: CortexArgs, q1: HostQuery, q2: HostQuery)
    requires
        a1.gpus@ == a2.gpus@,
        a1.redundancy == a2.redundancy,
        a1.make@ != any_make(),
        a2.make@ != any_make(),
        uppercase(a1.make@) == uppercase(a2.make@),
        is_query_for(q1, a1),
        is_query_for(q2, a2),
    ensures
        q1.min_gpus@ == q2.min_gpus@,
        opt_text(q1.make) == opt_text(q2.make),
        q1.state is Available && q2.state is Available,
        q1.batch_size == q2.batch_size,
{
    lemma_make_filter_ignores_case(a1.make@, a2.make@);
}

/// The query for the hosts of job `args`: available hosts with enough GPUs,
/// of the job's make in upper case unless the make is `ANY`, fetched twice
/// the job's redundancy at a time to allow for hosts that do not answer.
pub fn host_query(args: &CortexArgs) -> (q: HostQuery)
    requires
        args.redundancy * 2 <= u32::MAX,
    ensures
        is_query_for(q, *args),
{
    let make = if args.make == String::from_str("ANY") {
        None
    } else {
        Some(to_uppercase(args.make.as_str()))
    };
    HostQuery {
        min_gpus: String::from_str(args.gpus.as_str()),
        make: make,
        state: HostState::Available,
        batch_size: args.redundancy * 2,
    }
}

/// One change to the host database: set the state of the host `host_id`
/// to the stored value `state` (`None` is null).
pub struct StateUpdate {
    pub host_id: String,
    pub state: Option<String>,
}

/// The changes that move every given host to `new_state`, host by host.
pub fn batch_state_updates(hosts: &Vec<Host>, new_state: &HostState) -> (updates: Vec<StateUpdate>)
    ensures
        updates@.len() == hosts@.len(),
        forall|i: int|
            0 <= i < hosts@.len() ==> (#[trigger] updates@[i]).host_id@ == hosts@[i].id@
                && opt_text(updates@[i].state) == state_text(*new_state),
{
    let mut updates: Vec<StateUpdate> = Vec::new();
    let mut i: usize = 0;
    while i < hosts.len()
        invariant
            i <= hosts@.len(),
            updates@.len() == i,
            forall|j: int|
                0 <= j < i ==> (#[trigger] updates@[j]).host_id@ == hosts@[j].id@
                    && opt_text(updates@[j].state) == state_text(*new_state),
        decreases hosts@.len() - i,
    {
        let update = StateUpdate {
            host_id: String::from_str(hosts[i].id.as_str()),
            state: new_state.db_value(),
        };
        updates.push(update);
        i = i + 1;
    }
    updates
}

} // verus!
