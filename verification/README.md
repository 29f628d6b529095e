# cortex

A verified library for Cortex, a peer-to-peer network that schedules
container jobs on GPU hosts.

- `src/` is the library, proved with Verus:
  - `lib.rs`: node identity on the hash ring (`consistent_hash`, `get_dht_id`),
    commands and destinations;
  - `messaging/net.rs`, `cnp.rs`: the messages nodes exchange;
  - `dispatch.rs`: the dispatcher's routing table and message sorting;
  - `chord.rs`: the finger table;
  - `jobs.rs`, `cli.rs`: job arguments, job ids, and the client's reading of
    the scheduler's answer;
  - `server.rs`, `server/commit.rs`: host queries, host states in the
    database, and the two-phase commit of hosts to a job, host side included;
  - `text.rs`: splitting, prefixes and decimal numbers;
  - `outside.rs`: the calls into `sha2`, `local-ip-address`, `nanoid`,
    `cuckoofilter` and `str::to_uppercase`, with the contracts they are trusted
    to meet.
- `tests/` runs the library on concrete values.
- `app/` holds the programs (client, scheduler, node, host daemon): command
  line, sockets, the host database and the async runtime.
