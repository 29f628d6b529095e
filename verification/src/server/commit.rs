//! Two-phase commit of hosts to a job. The scheduler walks the available
//! hosts, keeps a filter of the hosts already working so that no host is
//! committed to two jobs, asks each new host to commit, and keeps the hosts
//! that confirm. The host side answers a commit request with a confirmation.
use vstd::prelude::*;
use vstd::multiset::Multiset;
use vstd::string::*;

use cuckoofilter::CuckooFilter;
use std::collections::hash_map::DefaultHasher;

use crate::outside::{
    filter_add, filter_buckets, filter_classes, filter_contains, filter_delete, filter_new,
    fingerprint_class, is_power_of_two, valid_bucket_count,
};
use crate::server::Host;
use crate::jobs::is_id_char;
use crate::text::{lemma_split_on_append_plain, lemma_split_on_nonempty, split, split_on, starts_with};

verus! {

/// The port hosts listen on for commit requests.
pub open spec fn host_port_suffix() -> Seq<char> {
    ":32503"@
}

/// The request line asking a host to commit to job `job_id`.
pub open spec fn commit_request_text(job_id: Seq<char>) -> Seq<char> {
    "Commit-Request:"@ + job_id + "\n"@
}

/// The line with which a host confirms that it committed to job `job_id`.
pub open spec fn committed_text(job_id: Seq<char>) -> Seq<char> {
    "Committed:"@ + job_id + "\n"@
}

/// The request line asking a host to commit to job `job_id`.
pub fn commit_request(job_id: &str) -> (line: String)
    ensures
        line@ == commit_request_text(job_id@),
{
    String::from_str("Commit-Request:").concat(job_id).concat("\n")
}

/// The confirmation a host sends for job `job_id`.
pub fn committed_reply(job_id: &str) -> (line: String)
    ensures
        line@ == committed_text(job_id@),
{
    String::from_str("Committed:").concat(job_id).concat("\n")
}

/// The address of a host's commit service, from its IP address.
pub fn host_socket(ip: &str) -> (socket: String)
    ensures
        socket@ == ip@ + host_port_suffix(),
{
    String::from_str(ip).concat(":32503")
}

/// What a host answers to the line it read: to a commit request, the
/// confirmation naming the second `:`-separated field of the request; to
/// anything else, nothing.
pub open spec fn host_answer(line: Seq<char>) -> Option<Seq<char>> {
    if "Commit-Request:"@.is_prefix_of(line) {
        Some("Committed:"@ + split_on(line, ':')[1])
    } else {
        None
    }
}

/// A separator at position `k` makes at least two pieces.
proof fn lemma_split_on_two_pieces(s: Seq<char>, sep: char, k: int)
    requires
        0 <= k < s.len(),
        s[k] == sep,
    ensures
        split_on(s, sep).len() >= 2,
    decreases s.len(),
{
    lemma_split_on_nonempty(s.drop_last(), sep);
    if k < s.len() - 1 {
        lemma_split_on_two_pieces(s.drop_last(), sep, k);
    }
}

/// What a host answers to a line it read from the scheduler.
pub fn commit_reply(line: &str) -> (answer: Option<String>)
    ensures
        answer matches Some(a) ==> host_answer(line@) == Some(a@),
        answer is None ==> host_answer(line@) is None,
{
    if starts_with(line, "Commit-Request:") {
        proof {
            reveal_strlit("Commit-Request:");
            assert(line@[14] == "Commit-Request:"@[14]);
            lemma_split_on_two_pieces(line@, ':', 14);
        }
        let parts = split(line, ':');
        proof {
            assert(parts@[1]@ == split_on(line@, ':')[1]);
        }
        Some(String::from_str("Committed:").concat(parts[1].as_str()))
    } else {
        None
    }
}

/// The commit handshake: for a job id without a colon, a host answers the
/// scheduler's commit request with exactly the confirmation the scheduler
/// waits for.
pub proof fn lemma_commit_handshake(job_id: Seq<char>)
    requires
        !job_id.contains(':'),
    ensures
        host_answer(commit_request_text(job_id)) == Some(committed_text(job_id)),
{
    reveal_strlit("Commit-Request:");
    reveal_strlit("Commit-Request");
    reveal_strlit("\n");
    let head = "Commit-Request"@;
    let tail = job_id + "\n"@;
    let line = commit_request_text(job_id);
    assert(line =~= head.push(':') + tail);
    assert(!head.contains(':')) by {
        if head.contains(':') {
            let j = choose|j: int| 0 <= j < head.len() && head[j] == ':';
            assert(head[j] == "Commit-Request"@[j]);
        }
    }
    assert(!tail.contains(':')) by {
        if tail.contains(':') {
            let j = choose|j: int| 0 <= j < tail.len() && tail[j] == ':';
            if j < job_id.len() {
                assert(job_id[j] == ':');
            } else {
                assert(tail[j] == '\n');
            }
        }
    }
    lemma_split_on_append_plain(Seq::<char>::empty(), head, ':');
    assert(Seq::<char>::empty() + head =~= head);
    assert(split_on(Seq::<char>::empty(), ':') =~= seq![Seq::<char>::empty()]);
    assert(split_on(head, ':') =~= seq![head]);
    assert(head.push(':').drop_last() =~= head);
    assert(split_on(head.push(':'), ':') =~= seq![head, Seq::<char>::empty()]);
    lemma_split_on_append_plain(head.push(':'), tail, ':');
    assert(split_on(line, ':') =~= seq![head, Seq::<char>::empty() + tail]);
    assert(Seq::<char>::empty() + tail =~= tail);
    assert("Commit-Request:"@.is_prefix_of(line)) by {
        assert(line.take(15) =~= "Commit-Request:"@);
    }
    assert("Committed:"@ + tail =~= committed_text(job_id));
}

/// Job ids drawn by `rand_id` are hexadecimal, so the handshake holds for
/// every one of them.
pub proof fn lemma_generated_id_handshake(job_id: Seq<char>)
    requires
        job_id.len() == 16,
        forall|i: int| 0 <= i < 16 ==> is_id_char(#[trigger] job_id[i]),
    ensures
        host_answer(commit_request_text(job_id)) == Some(committed_text(job_id)),
{
    assert(!job_id.contains(':')) by {
        if job_id.contains(':') {
            let j = choose|j: int| 0 <= j < job_id.len() && job_id[j] == ':';
            assert(is_id_char(job_id[j]));
        }
    }
    lemma_commit_handshake(job_id);
}

/// The class under which the working set files a host id.
pub open spec fn id_class(working: CuckooFilter<DefaultHasher>, host_id: Seq<char>) -> int {
    fingerprint_class(filter_buckets(working), host_id)
}

/// Whether the working set lists a host id: it holds the id's class.
pub open spec fn lists_host(working: CuckooFilter<DefaultHasher>, host_id: Seq<char>) -> bool {
    filter_classes(working).count(id_class(working, host_id)) > 0
}

/// Whether a filter can serve as the working set: its bucket count is a
/// positive power of two, as for every filter `new_working_set` makes.
pub open spec fn working_set_ok(working: CuckooFilter<DefaultHasher>) -> bool {
    valid_bucket_count(filter_buckets(working))
}

/// A fresh filter of working hosts: it lists no host.
pub fn new_working_set() -> (working_host_ids: CuckooFilter<DefaultHasher>)
    ensures
        filter_classes(working_host_ids) == Multiset::<int>::empty(),
        working_set_ok(working_host_ids),
{
    let working_host_ids = filter_new();
    proof {
        reveal_with_fuel(is_power_of_two, 20);
    }
    working_host_ids
}

/// A host that was asked to commit and then failed to confirm leaves the
/// working set as it was before it was asked: the contact (`next_commit_step`
/// returning `Contact`) files its id's class once, and the failed settlement
/// (`settle_commit` returning `false`) takes that class out once.
pub proof fn lemma_failed_commit_leaves_no_trace(
    before: CuckooFilter<DefaultHasher>,
    contacted: CuckooFilter<DefaultHasher>,
    settled: CuckooFilter<DefaultHasher>,
    host_id: Seq<char>,
)
    requires
        filter_buckets(contacted) == filter_buckets(before),
        filter_classes(contacted) == filter_classes(before).insert(id_class(before, host_id)),
        filter_buckets(settled) == filter_buckets(contacted),
        filter_classes(settled) == filter_classes(contacted).remove(id_class(contacted, host_id)),
    ensures
        filter_classes(settled) == filter_classes(before),
        filter_buckets(settled) == filter_buckets(before),
{
    assert(filter_classes(before).insert(id_class(before, host_id)).remove(
        id_class(before, host_id),
    ) =~= filter_classes(before));
}

/// How to ask one host to commit.
pub struct CommitContact {
    /// Where the host listens.
    pub host_socket: String,
    /// The line to send.
    pub request: String,
    /// The line the host answers when it commits.
    pub expected_reply: String,
}

/// What the scheduler does with the next host from the database.
pub enum CommitStep {
    /// Enough hosts committed: stop walking the hosts.
    Finish,
    /// The host already works for a job: leave it out, go on with the next.
    AlreadyWorking,
    /// The working set had no room for the host: leave it out, go on with
    /// the next.
    FilterFull,
    /// Ask this host to commit.
    Contact(CommitContact),
}

/// Whether `c` is how to ask host `host` to commit to job `job_id`.
pub open spec fn contacts(c: CommitContact, host: Host, job_id: Seq<char>) -> bool {
    &&& c.host_socket@ == host.ip@ + host_port_suffix()
    &&& c.request@ == commit_request_text(job_id)
    &&& c.expected_reply@ == committed_text(job_id)
}

/// The step for a host that was, or was not, admitted to the working set.
pub fn commit_step_for(admitted: bool, host: &Host, job_id: &str) -> (step: CommitStep)
    ensures
        admitted ==> (step matches CommitStep::Contact(c) && contacts(c, *host, job_id@)),
        !admitted ==> step is FilterFull,
{
    if admitted {
        CommitStep::Contact(
            CommitContact {
                host_socket: host_socket(host.ip.as_str()),
                request: commit_request(job_id),
                expected_reply: committed_reply(job_id),
            },
        )
    } else {
        CommitStep::FilterFull
    }
}

/// Decides what to do with `host`, the next available host for job
/// `job_id`, when `num_committed` hosts have committed and the job wants
/// `redundancy` of them. A host already in the working set is never asked
/// again; a host that is asked enters the working set first.
pub fn next_commit_step(
    num_committed: u32,
    redundancy: u32,
    host: &Host,
    job_id: &str,
    working_host_ids: &mut CuckooFilter<DefaultHasher>,
) -> (step: CommitStep)
    requires
        working_set_ok(*old(working_host_ids)),
    ensures
        working_set_ok(*final(working_host_ids)),
        num_committed >= redundancy ==> step is Finish && *final(working_host_ids) == *old(
            working_host_ids,
        ),
        num_committed < redundancy ==> !(step is Finish),
        num_committed < redundancy ==> (step is AlreadyWorking <==> lists_host(
            *old(working_host_ids),
            host.id@,
        )),
        step is AlreadyWorking ==> *final(working_host_ids) == *old(working_host_ids),
        filter_buckets(*final(working_host_ids)) == filter_buckets(*old(working_host_ids)),
        step matches CommitStep::Contact(c) ==> contacts(c, *host, job_id@) && filter_classes(
            *final(working_host_ids),
        ) == filter_classes(*old(working_host_ids)).insert(
            id_class(*old(working_host_ids), host.id@),
        ),
        step is FilterFull ==> filter_classes(*old(working_host_ids)).len() >= 4,
        step is FilterFull ==> exists|evicted: int|
            filter_classes(*old(working_host_ids)).insert(
                id_class(*old(working_host_ids), host.id@),
            ).count(evicted) > 0 && filter_classes(*final(working_host_ids))
                == #[trigger] filter_classes(*old(working_host_ids)).insert(
                id_class(*old(working_host_ids), host.id@),
            ).remove(evicted),
{
    if num_committed >= redundancy {
        return CommitStep::Finish;
    }
    if filter_contains(working_host_ids, &host.id) {
        return CommitStep::AlreadyWorking;
    }
    let added = filter_add(working_host_ids, &host.id);
    commit_step_for(added.is_ok(), host, job_id)
}

/// Settles the commit of host `host_id` after asking it: it committed when
/// it answered exactly `expected_reply`; otherwise, including when it could
/// not be reached or gave no answer, its id's class leaves the working set
/// once (if the set held it).
pub fn settle_commit(
    answer: Option<String>,
    expected_reply: &str,
    host_id: &String,
    working_host_ids: &mut CuckooFilter<DefaultHasher>,
) -> (committed: bool)
    requires
        working_set_ok(*old(working_host_ids)),
    ensures
        working_set_ok(*final(working_host_ids)),
        committed == (answer matches Some(a) && a@ == expected_reply@),
        committed ==> *final(working_host_ids) == *old(working_host_ids),
        filter_buckets(*final(working_host_ids)) == filter_buckets(*old(working_host_ids)),
        !committed ==> filter_classes(*final(working_host_ids)) == filter_classes(
            *old(working_host_ids),
        ).remove(id_class(*old(working_host_ids), host_id@)),
{
    let committed = match &answer {
        Some(a) => *a == String::from_str(expected_reply),
        None => false,
    };
    if !committed {
        filter_delete(working_host_ids, host_id);
    }
    committed
}

} // verus!
