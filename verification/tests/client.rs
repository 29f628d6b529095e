use cortex::cli::{check, frame_line, interpret_reply, ps, update_job_state, ReplyError, ServerReply};
use cortex::jobs::{default_path, rand_id, CortexArgs, CortexCommands, JobState, PathArgs};
use cortex::text::{parse_u32, split, starts_with};

fn args(id: &str, redundancy: u32) -> CortexArgs {
    CortexArgs {
        cmd: CortexCommands::Run,
        id: String::from(id),
        name: String::new(),
        redundancy,
        gpus: String::from("1"),
        make: String::from("ANY"),
        max_runtime: String::from("NONE"),
    }
}

#[test]
fn rand_id_is_sixteen_hex_digits() {
    for _ in 0..20 {
        let id = rand_id();
        assert_eq!(id.chars().count(), 16);
        assert!(id.chars().all(|c| c.is_ascii_digit() || ('a'..='f').contains(&c)));
    }
}

#[test]
fn rand_ids_differ() {
    assert_ne!(rand_id(), rand_id());
}

#[test]
fn default_path_keeps_the_text() {
    assert_eq!(default_path("."), ".");
    assert_eq!(default_path("out/dir"), "out/dir");
}

#[test]
fn frame_line_ends_with_newline() {
    assert_eq!(frame_line(String::from("{\"a\":1}")), "{\"a\":1}\n");
    assert_eq!(frame_line(String::new()), "\n");
}

#[test]
fn reply_hosts_found() {
    let r = interpret_reply("Hosts-Found:job7", &args("job7", 3));
    assert_eq!(r, Ok(ServerReply::HostsFound { requested: 3 }));
}

#[test]
fn reply_hosts_short() {
    let r = interpret_reply("Couldn't find requested number of hosts:job7:2", &args("job7", 5));
    assert_eq!(r, Ok(ServerReply::HostsShort { found: 2, requested: 5 }));
}

#[test]
fn reply_hosts_short_with_plus_sign() {
    let r = interpret_reply("Couldn't find requested number of hosts:j:+12", &args("j", 20));
    assert_eq!(r, Ok(ServerReply::HostsShort { found: 12, requested: 20 }));
}

#[test]
fn reply_unrecognized() {
    let r = interpret_reply("Queued:job7", &args("job7", 1));
    assert_eq!(r, Ok(ServerReply::Unrecognized));
}

#[test]
fn reply_without_job_id() {
    assert_eq!(interpret_reply("Hosts-Found", &args("x", 1)), Err(ReplyError::MissingJobId));
    assert_eq!(interpret_reply("", &args("x", 1)), Err(ReplyError::MissingJobId));
}

#[test]
fn reply_for_another_job() {
    assert_eq!(interpret_reply("Hosts-Found:y", &args("x", 1)), Err(ReplyError::WrongJobId));
    // The line the client reads keeps its newline, which is part of the id field.
    assert_eq!(interpret_reply("Hosts-Found:x\n", &args("x", 1)), Err(ReplyError::WrongJobId));
}

#[test]
fn reply_short_without_count() {
    let r = interpret_reply("Couldn't find requested number of hosts:x", &args("x", 1));
    assert_eq!(r, Err(ReplyError::MissingHostCount));
}

#[test]
fn reply_short_with_bad_count() {
    let r = interpret_reply("Couldn't find requested number of hosts:x:two", &args("x", 1));
    assert_eq!(r, Err(ReplyError::BadHostCount));
    let r = interpret_reply("Couldn't find requested number of hosts:x:4294967296", &args("x", 1));
    assert_eq!(r, Err(ReplyError::BadHostCount));
}

#[test]
fn split_matches_std() {
    for s in ["", "a", ":", "a:b", "a::b:", "Commit-Request:j\n", "é:ü:"] {
        let ours = split(s, ':');
        let std_parts: Vec<String> = s.split(':').map(String::from).collect();
        assert_eq!(ours, std_parts);
    }
}

#[test]
fn parse_u32_matches_std() {
    for s in ["", "+", "-1", "0", "+7", "42", "4294967295", "4294967296", "12a", " 1", "00012"] {
        assert_eq!(parse_u32(s), s.parse::<u32>().ok(), "on {:?}", s);
    }
}

#[test]
fn starts_with_matches_std() {
    for (s, p) in [("Commit-Request:x", "Commit-Request:"), ("Commit", "Commit-Request:"), ("", ""), ("abc", "b")] {
        assert_eq!(starts_with(s, p), s.starts_with(p));
    }
}

#[test]
fn check_ps_and_state_updates_do_nothing() {
    let paths = PathArgs { container: String::from("."), volume: None, out: String::from(".") };
    assert!(check(&args("a", 1), &paths).is_ok());
    assert!(ps(&vec![]).is_empty());
    update_job_state(&String::from("a"), JobState::INIT);
}

#[test]
fn ps_lists_running_jobs_in_order() {
    let jobs = vec![
        (String::from("a"), JobState::RUNNING),
        (String::from("b"), JobState::WAITING),
        (String::from("c"), JobState::RUNNING),
        (String::from("d"), JobState::DONE),
    ];
    assert_eq!(ps(&jobs), vec![String::from("a"), String::from("c")]);
}
