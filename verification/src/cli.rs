//! The command-line client's rules: how it frames the job it sends to the
//! scheduler, and how it reads the scheduler's answer.
use vstd::prelude::*;
use vstd::string::*;

use crate::jobs::{CortexArgs, JobState, PathArgs};
use crate::text::{
    decimal_text, lemma_decimal_text, lemma_parse_u32_decimal, lemma_split_on_plain,
    lemma_split_on_push_field, parse_u32, parse_u32_spec, split, split_on, texts,
};

verus! {

/// The first field of the scheduler's answer when too few hosts were found.
pub open spec fn hosts_short_tag() -> Seq<char> {
    "Couldn't find requested number of hosts"@
}

/// The first field of the scheduler's answer when every host was found.
pub open spec fn hosts_found_tag() -> Seq<char> {
    "Hosts-Found"@
}

/// What the scheduler's answer says.
#[derive(Debug, PartialEq, Eq, Structural)]
pub enum ServerReply {
    /// Only `found` of the `requested` hosts are available.
    HostsShort { found: u32, requested: u32 },
    /// All `requested` hosts were found.
    HostsFound { requested: u32 },
    /// An answer the client does not act on.
    Unrecognized,
}

/// Why the scheduler's answer cannot be read.
#[derive(Debug, PartialEq, Eq, Structural)]
pub enum ReplyError {
    /// The answer has no second `:`-separated field, the job id.
    MissingJobId,
    /// The answer is about another job.
    WrongJobId,
    /// A short-of-hosts answer lacks its third field, the host count.
    MissingHostCount,
    /// A short-of-hosts answer's host count is not a `u32`.
    BadHostCount,
}

/// How the client reads the answer `response` to the job `job_id` that
/// asked for `requested` hosts. The answer's fields are separated by `:`:
/// the kind of answer, then the job id, then, for a short-of-hosts answer,
/// the number of hosts found.
pub open spec fn reply_outcome(response: Seq<char>, job_id: Seq<char>, requested: u32) -> Result<
    ServerReply,
    ReplyError,
> {
    let parts = split_on(response, ':');
    if parts.len() < 2 {
        Err(ReplyError::MissingJobId)
    } else if parts[1] != job_id {
        Err(ReplyError::WrongJobId)
    } else if parts[0] == hosts_short_tag() {
        if parts.len() < 3 {
            Err(ReplyError::MissingHostCount)
        } else {
            match parse_u32_spec(parts[2]) {
                Some(found) => Ok(ServerReply::HostsShort { found, requested }),
                None => Err(ReplyError::BadHostCount),
            }
        }
    } else if parts[0] == hosts_found_tag() {
        Ok(ServerReply::HostsFound { requested })
    } else {
        Ok(ServerReply::Unrecognized)
    }
}

proof fn lemma_no_colon_in_tags()
    ensures
        !hosts_short_tag().contains(':'),
        !hosts_found_tag().contains(':'),
        hosts_short_tag() != hosts_found_tag(),
{
    reveal_strlit("Couldn't find requested number of hosts");
    reveal_strlit("Hosts-Found");
    let short = hosts_short_tag();
    let found = hosts_found_tag();
    assert(!short.contains(':')) by {
        if short.contains(':') {
            let j = choose|j: int| 0 <= j < short.len() && short[j] == ':';
            assert(short[j] == "Couldn't find requested number of hosts"@[j]);
        }
    }
    assert(!found.contains(':')) by {
        if found.contains(':') {
            let j = choose|j: int| 0 <= j < found.len() && found[j] == ':';
            assert(found[j] == "Hosts-Found"@[j]);
        }
    }
    assert(short != found) by {
        assert(short.len() != found.len());
    }
}

/// The scheduler's short-of-hosts answer for a job, `<tag>:<job id>:<n>`
/// with any `u32` count `n` written in decimal, is read as `n` of the
/// requested hosts found, zero included, for every job id without a colon.
pub proof fn lemma_short_answer_reads_count(job_id: Seq<char>, found: u32, requested: u32)
    requires
        !job_id.contains(':'),
    ensures
        reply_outcome(
            (hosts_short_tag().push(':') + job_id).push(':') + decimal_text(found as nat),
            job_id,
            requested,
        ) == Ok::<ServerReply, ReplyError>(ServerReply::HostsShort { found, requested }),
{
    lemma_no_colon_in_tags();
    lemma_decimal_text(found as nat);
    lemma_parse_u32_decimal(found);
    let tag = hosts_short_tag();
    lemma_split_on_plain(tag, ':');
    lemma_split_on_push_field(tag, job_id, ':');
    lemma_split_on_push_field(tag.push(':') + job_id, decimal_text(found as nat), ':');
    assert(split_on((tag.push(':') + job_id).push(':') + decimal_text(found as nat), ':') =~= seq![
        tag,
        job_id,
        decimal_text(found as nat),
    ]);
}

/// The scheduler's all-hosts-found answer for a job, `<tag>:<job id>`, is
/// read as all requested hosts found, for every job id without a colon.
pub proof fn lemma_found_answer_reads_found(job_id: Seq<char>, requested: u32)
    requires
        !job_id.contains(':'),
    ensures
        reply_outcome(hosts_found_tag().push(':') + job_id, job_id, requested) == Ok::<
            ServerReply,
            ReplyError,
        >(ServerReply::HostsFound { requested }),
{
    lemma_no_colon_in_tags();
    let tag = hosts_found_tag();
    lemma_split_on_plain(tag, ':');
    lemma_split_on_push_field(tag, job_id, ':');
    assert(split_on(tag.push(':') + job_id, ':') =~= seq![tag, job_id]);
}

/// Reads the scheduler's answer to the job `args`.
pub fn interpret_reply(response: &str, args: &CortexArgs) -> (r: Result<ServerReply, ReplyError>)
    ensures
        r == reply_outcome(response@, args.id@, args.redundancy),
{
    let parts = split(response, ':');
    proof {
        assert(parts@.len() == split_on(response@, ':').len());
    }
    if parts.len() < 2 {
        return Err(ReplyError::MissingJobId);
    }
    proof {
        assert(parts@[1]@ == split_on(response@, ':')[1]);
        assert(parts@[0]@ == split_on(response@, ':')[0]);
    }
    if parts[1] != args.id {
        return Err(ReplyError::WrongJobId);
    }
    let hosts_requested = args.redundancy;
    if parts[0] == String::from_str("Couldn't find requested number of hosts") {
        if parts.len() < 3 {
            return Err(ReplyError::MissingHostCount);
        }
        proof {
            assert(parts@[2]@ == split_on(response@, ':')[2]);
        }
        match parse_u32(parts[2].as_str()) {
            Some(num_hosts) => Ok(ServerReply::HostsShort { found: num_hosts, requested: hosts_requested }),
            None => Err(ReplyError::BadHostCount),
        }
    } else if parts[0] == String::from_str("Hosts-Found") {
        Ok(ServerReply::HostsFound { requested: hosts_requested })
    } else {
        Ok(ServerReply::Unrecognized)
    }
}

/// Ends the serialized job arguments with the newline that marks the end of
/// the request line.
pub fn frame_line(serialized: String) -> (line: String)
    ensures
        line@ == serialized@.push('\n'),
{
    let mut line = serialized;
    line.append("\n");
    proof {
        reveal_strlit("\n");
    }
    line
}

/// Checks whether the job could run, without running it. Every job passes.
pub fn check(args: &CortexArgs, paths: &PathArgs) -> (r: Result<(), String>)
    ensures
        r is Ok,
{
    Ok(())
}

/// The ids of the running jobs among `jobs`, in order.
pub open spec fn running_ids(jobs: Seq<(String, JobState)>) -> Seq<Seq<char>>
    decreases jobs.len(),
{
    if jobs.len() == 0 {
        Seq::empty()
    } else {
        let before = running_ids(jobs.drop_last());
        if jobs.last().1 == JobState::RUNNING {
            before.push(jobs.last().0@)
        } else {
            before
        }
    }
}

/// `ps` lists exactly the running jobs: the ids of the jobs whose state is
/// `RUNNING`, in order, and no other; a job being prepared, waiting, failed
/// or done is left out.
pub proof fn lemma_running_ids_are_running_jobs(jobs: Seq<(String, JobState)>)
    ensures
        running_ids(jobs) == jobs.filter(|j: (String, JobState)| j.1 == JobState::RUNNING).map_values(
            |j: (String, JobState)| j.0@,
        ),
    decreases jobs.len(),
{
    reveal(Seq::filter);
    if jobs.len() > 0 {
        let init = jobs.drop_last();
        lemma_running_ids_are_running_jobs(init);
        let f = init.filter(|j: (String, JobState)| j.1 == JobState::RUNNING);
        assert(f.push(jobs.last()).map_values(|j: (String, JobState)| j.0@) =~= f.map_values(
            |j: (String, JobState)| j.0@,
        ).push(jobs.last().0@));
    } else {
        assert(jobs.filter(|j: (String, JobState)| j.1 == JobState::RUNNING).map_values(
            |j: (String, JobState)| j.0@,
        ) =~= Seq::<Seq<char>>::empty());
    }
}

/// Lists the currently running jobs: given the known jobs with their
/// states, the ids of those that are running, in order.
pub fn ps(jobs: &Vec<(String, JobState)>) -> (running: Vec<String>)
    ensures
        texts(running@) == running_ids(jobs@),
        texts(running@) == jobs@.filter(|j: (String, JobState)| j.1 == JobState::RUNNING).map_values(
            |j: (String, JobState)| j.0@,
        ),
{
    let mut running: Vec<String> = Vec::new();
    let mut i: usize = 0;
    while i < jobs.len()
        invariant
            i <= jobs@.len(),
            texts(running@) == running_ids(jobs@.take(i as int)),
        decreases jobs@.len() - i,
    {
        proof {
            assert(jobs@.take(i + 1).drop_last() =~= jobs@.take(i as int));
            assert(jobs@.take(i + 1).last() == jobs@[i as int]);
        }
        if jobs[i].1 == JobState::RUNNING {
            let ghost before = texts(running@);
            running.push(jobs[i].0.clone());
            proof {
                assert(texts(running@) =~= before.push(jobs@[i as int].0@));
            }
        }
        i = i + 1;
    }
    proof {
        assert(jobs@.take(jobs@.len() as int) =~= jobs@);
        lemma_running_ids_are_running_jobs(jobs@);
    }
    running
}

/// Records the state a job has reached; nothing keeps it yet.
pub fn update_job_state(job_id: &String, new_state: JobState) {
}

} // verus!
