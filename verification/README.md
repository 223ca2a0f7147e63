# sidedns_core

A local DNS router and transparent HTTP/HTTPS proxy for developers: map any
domain to any local service, system-wide, and undo it completely when done.
The daemon answers DNS queries for routed domains with the proxy's address,
the proxy reads the `Host` header and forwards to the rule's target, and the
system's split-DNS configuration sends only the routed domains to the daemon.

The library is written in Verus: its functions carry `requires`/`ensures`
contracts that are proved, and the properties that span several functions
are stated and proved as lemmas.

## Layout

- `src/` — the verified library.
  - `domain.rs`, `rule.rs`: the grammar of domain names and what a rule
    (exact or `*.suffix`) applies to.
  - `store_model.rs`, `store.rs`, `store_laws.rs`: the two-layer rule store
    (ephemeral rules above persistent ones), its model, and its laws.
  - `shared_store.rs`, `state.rs`, `ipc.rs`: the store shared between the
    daemon's tasks, and the handling of client requests.
  - `resolver.rs`, `dns_answer.rs`: the cached lookups and the DNS answers.
  - `proxy.rs`, `headers.rs`: routing and header rewriting of the proxy.
  - `certs.rs`: the local certificate authority.
  - `dns_sys.rs`, `fs_model.rs`, `nrpt_model.rs`: the split-DNS
    configuration of each operating system, as plans of actions, and what
    those plans do to files and to the Windows name resolution policy table;
    `dns_manager.rs`: when the daemon applies and reverts that configuration.
  - `trust.rs`, `system_store.rs`: installing the CA in trust stores.
  - `process_tree.rs`, `run_session.rs`: `sidedns run` — finding the ports a
    command opened, and the session that keeps its ephemeral rule alive.
  - `cli.rs`, `commands.rs`: argument checks and what each command prints.
  - `laws.rs`: properties of the proxy, DNS answers, system configuration
    and `run` sessions.
- `tests/` — tests of the library on concrete values.
- `app/` — the program around the library: argument parsing, sockets, the
  DNS and proxy servers, file and process I/O.
