# quantalithos_identity

Verified identity domain library: typed refs and public contract shells, the
core identity truth with its state machines and guards, and the application
helpers that read models and idempotent flows rely on. Every public function in
`src/` carries a contract that Verus proves.

Layout:

- `src/actor.rs` — actor and idempotency markers.
- `src/text.rs` — blank-text, ASCII lower-casing, and substring predicates.
- `src/contracts/` — typed refs with their validation, metadata, protocol names,
  command/query/event/job shells, receipts, and read-model views.
- `src/domain/` — lifecycle, member anchor, role capability, career, memory
  reference, trace, audit, outbox, handoff, projection, reference resolution,
  and report-only reconciliation; each module states its transition matrix as
  spec functions and proves its laws as `lemma_*` proof functions.
- `src/application/` — operation contexts, idempotency records and replay,
  visibility decisions, job reports, runtime shells (`support`), application
  errors (`errors`), the read decisions of query flows (`query`): the query
  context check, the visibility gate, decisions and surfaces built from an
  access, the member summary read, per-item list steps, and the redacting
  views; and the page flows (`pages`): one state machine per multi-read query
  (anchor, lifecycle, role capability, career, memory, trace, audit, outbox,
  report, reference)
  that takes each port result as an event and answers with the next read, a
  degradation to map, or the response, and proves the page law of what it
  returns.
- `app/` — the query service: port traits for repositories, the visibility
  resolver, the degradation mapper, clock and id generator, and the read flows
  (`lib.rs`: member summary, career records, trace pages, projection state;
  `truth.rs`: anchor, lifecycle, role capability, memory references, audit
  trail; `operations.rs`: reconciliation reports, outbox listing and state,
  reference resolution state, handoff state; `wire.rs`: serde copies of the
  public surface enums). Each flow checks its query context, then performs
  the port reads the library's page flow or read decision asks for and hands
  back what they return.
- `tests/` — scenario tests run against the compiled library.
