use cortex::jobs::{rand_id, CortexArgs, CortexCommands};
use cortex::server::commit::{
    commit_reply, commit_request, commit_step_for, committed_reply, host_socket, new_working_set,
    next_commit_step, settle_commit, CommitStep,
};
use cortex::server::{batch_state_updates, host_query, Host, HostState};

fn host(id: &str, ip: &str) -> Host {
    Host {
        id: String::from(id),
        gpus: 2,
        model: String::from("A100"),
        make: String::from("NVIDIA"),
        state: HostState::Available,
        ip: String::from(ip),
    }
}

fn args(make: &str, redundancy: u32) -> CortexArgs {
    CortexArgs {
        cmd: CortexCommands::Run,
        id: String::from("job"),
        name: String::new(),
        redundancy,
        gpus: String::from("2"),
        make: String::from(make),
        max_runtime: String::from("NONE"),
    }
}

#[test]
fn db_values_of_states() {
    assert_eq!(HostState::Available.db_value(), None);
    assert_eq!(HostState::Committing(String::from("j1")).db_value(), Some(String::from("Committing:j1")));
    assert_eq!(HostState::Working(String::from("j2")).db_value(), Some(String::from("Working:j2")));
}

#[test]
fn query_for_any_make() {
    let q = host_query(&args("ANY", 3));
    assert_eq!(q.make, None);
    assert_eq!(q.min_gpus, "2");
    assert!(matches!(q.state, HostState::Available));
    assert_eq!(q.batch_size, 6);
}

#[test]
fn query_for_a_make_is_upper_case() {
    let q = host_query(&args("nvidia", 4));
    assert_eq!(q.make, Some(String::from("NVIDIA")));
    assert_eq!(q.batch_size, 8);
    // Only the exact text ANY means any make.
    let q = host_query(&args("any", 1));
    assert_eq!(q.make, Some(String::from("ANY")));
}

#[test]
fn batch_updates_name_every_host() {
    let hosts = vec![host("h1", "10.0.0.1"), host("h2", "10.0.0.2")];
    let ups = batch_state_updates(&hosts, &HostState::Working(String::from("job")));
    assert_eq!(ups.len(), 2);
    assert_eq!(ups[0].host_id, "h1");
    assert_eq!(ups[1].host_id, "h2");
    assert!(ups.iter().all(|u| u.state == Some(String::from("Working:job"))));
    let none = batch_state_updates(&vec![], &HostState::Available);
    assert!(none.is_empty());
}

#[test]
fn protocol_lines() {
    assert_eq!(commit_request("abc"), "Commit-Request:abc\n");
    assert_eq!(committed_reply("abc"), "Committed:abc\n");
    assert_eq!(host_socket("10.1.2.3"), "10.1.2.3:32503");
}

#[test]
fn host_answers_commit_requests() {
    assert_eq!(commit_reply("Commit-Request:job9\n"), Some(String::from("Committed:job9\n")));
    assert_eq!(commit_reply("Commit-Request:a:b\n"), Some(String::from("Committed:a")));
    assert_eq!(commit_reply("Hello"), None);
    assert_eq!(commit_reply("commit-request:x"), None);
}

#[test]
fn handshake_on_generated_id() {
    let id = rand_id();
    let request = commit_request(&id);
    assert_eq!(commit_reply(&request), Some(committed_reply(&id)));
}

#[test]
fn finish_when_enough_hosts_committed() {
    let mut working = new_working_set();
    let h = host("h1", "10.0.0.1");
    assert!(matches!(next_commit_step(2, 2, &h, "job", &mut working), CommitStep::Finish));
    assert!(matches!(next_commit_step(3, 2, &h, "job", &mut working), CommitStep::Finish));
    // Finishing did not put the host in the working set.
    assert!(matches!(next_commit_step(0, 2, &h, "job", &mut working), CommitStep::Contact(_)));
}

#[test]
fn a_working_host_is_not_asked_twice() {
    let mut working = new_working_set();
    let h = host("h1", "10.0.0.1");
    match next_commit_step(0, 2, &h, "job", &mut working) {
        CommitStep::Contact(c) => {
            assert_eq!(c.host_socket, "10.0.0.1:32503");
            assert_eq!(c.request, "Commit-Request:job\n");
            assert_eq!(c.expected_reply, "Committed:job\n");
        }
        _ => panic!("a fresh host is contacted"),
    }
    assert!(matches!(next_commit_step(0, 2, &h, "other", &mut working), CommitStep::AlreadyWorking));
}

#[test]
fn a_failed_commit_frees_the_host() {
    let mut working = new_working_set();
    let h = host("h1", "10.0.0.1");
    assert!(matches!(next_commit_step(0, 1, &h, "job", &mut working), CommitStep::Contact(_)));
    let committed = settle_commit(Some(String::from("Nope\n")), "Committed:job\n", &h.id, &mut working);
    assert!(!committed);
    assert!(matches!(next_commit_step(0, 1, &h, "job", &mut working), CommitStep::Contact(_)));
    let committed = settle_commit(None, "Committed:job\n", &h.id, &mut working);
    assert!(!committed);
    assert!(matches!(next_commit_step(0, 1, &h, "job", &mut working), CommitStep::Contact(_)));
}

#[test]
fn a_confirmed_commit_keeps_the_host_working() {
    let mut working = new_working_set();
    let h = host("h1", "10.0.0.1");
    assert!(matches!(next_commit_step(0, 1, &h, "job", &mut working), CommitStep::Contact(_)));
    let answer = commit_reply(&commit_request("job"));
    assert!(settle_commit(answer, "Committed:job\n", &h.id, &mut working));
    assert!(matches!(next_commit_step(0, 1, &h, "job2", &mut working), CommitStep::AlreadyWorking));
}

#[test]
fn step_for_admission() {
    let h = host("h3", "192.168.1.9");
    assert!(matches!(commit_step_for(false, &h, "j"), CommitStep::FilterFull));
    match commit_step_for(true, &h, "j") {
        CommitStep::Contact(c) => assert_eq!(c.host_socket, "192.168.1.9:32503"),
        _ => panic!("an admitted host is contacted"),
    }
}
