//! What a user asks of the Cortex scheduler: the job's arguments, the
//! paths it uses, and the states a job goes through.
use vstd::prelude::*;

use crate::outside::nanoid_format;

verus! {

/// Everything the command line gives.
pub struct AllArgs {
    pub cortex_args: CortexArgs,
    pub path_args: PathArgs,
}

/// The job's arguments, as sent to the scheduler.
#[derive(Clone, Debug)]
pub struct CortexArgs {
    pub cmd: CortexCommands,
    /// The job's id; a fresh random one unless given.
    pub id: String,
    /// An optional name for the job.
    pub name: String,
    /// The number of hosts for the job to run on.
    pub redundancy: u32,
    /// The number of GPUs on the host. A range is also accepted.
    pub gpus: String,
    /// GPU make, i.e. Nvidia, or `ANY`.
    pub make: String,
    /// An upper bound on how long the job should run.
    pub max_runtime: String,
}

/// The paths a job uses, each as text.
#[derive(Clone, Debug)]
pub struct PathArgs {
    /// The path to the dockerfile.
    pub container: String,
    /// The path to the volume to be mounted into the container.
    pub volume: Option<String>,
    /// Where the results of the job go.
    pub out: String,
}

/// What the user asks the scheduler to do.
#[derive(Clone, Copy, Debug, PartialEq, Eq, Structural)]
pub enum CortexCommands {
    Run,
    /// Check whether the job can run, without running it.
    Check,
    /// List running jobs.
    Ps,
}

/// The states a job goes through.
#[allow(non_camel_case_types)]
#[derive(Clone, Copy, Debug, PartialEq, Eq, Structural)]
pub enum JobState {
    INIT,
    /// Verifying the docker image, searching for hosts.
    PREPARING,
    /// Verified, waiting for a host to become available.
    WAITING,
    /// Running on its hosts.
    RUNNING,
    FAIL,
    DONE,
}

/// The characters of a job id.
pub open spec fn is_id_char(c: char) -> bool {
    ('0' <= c <= '9') || ('a' <= c <= 'f')
}

/// A fresh random job id: 16 lowercase hexadecimal digits.
pub fn rand_id() -> (id: String)
    ensures
        id@.len() == 16,
        forall|i: int| 0 <= i < 16 ==> is_id_char(#[trigger] id@[i]),
{
    let alphabet: [char; 16] = [
        '0', '1', '2', '3', '4', '5', '6', '7', '8', '9', 'a', 'b', 'c', 'd', 'e', 'f',
    ];
    let letters = vstd::array::array_as_slice(&alphabet);
    proof {
        assert forall|i: int| 0 <= i < letters@.len() implies (#[trigger] letters@[i] as u32)
            < 128 && is_id_char(letters@[i]) by {
            assert(letters@[i] == alphabet@[i]);
        }
    }
    let id = nanoid_format(letters, 16);
    proof {
        assert forall|i: int| 0 <= i < 16 implies is_id_char(#[trigger] id@[i]) by {
            let j = letters@.index_of(id@[i]);
            assert(letters@[j] == id@[i]);
        }
    }
    id
}

/// The path given, as the default of a path argument.
pub fn default_path(path: &str) -> (p: String)
    ensures
        p@ == path@,
{
    path.to_owned()
}

} // verus!
