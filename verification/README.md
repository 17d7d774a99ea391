# just_llm_client

A provider-neutral LLM client core and the decision logic of a small coding
agent, written in Verus. The library's own functions are proved against their
contracts; the calls it makes into `serde_json`, `reqwest`'s URL type,
`strip-ansi-escapes` and a few `std` string functions stand behind small trusted
wrappers (`#[verifier::external_body]`), whose contracts are believed, not
proved. The traits that applications implement (tool, approval provider,
provider entry, backend identity) state what their implementations may give as
relations that an unverified implementation leaves open.

## Layout

- `src/` — the verified library.
  - `chat`, `request`, `response`, `types` — normalized chat-completion types and
    their builders and accessors.
  - `error`, `validation`, `capability` — the client error taxonomy, request
    validation, and capability negotiation.
  - `client` — chat-client defaults and the provider registry.
  - `common_prepared`, `prepared` — prepared requests and backend binding.
  - `transport`, `sse` — endpoint URLs, response checks, and the
    server-sent-event decoder.
  - `compact`, `strategies` — token estimates and context compaction.
  - `policy`, `tools` — tool authorization, approvals, result envelopes, and tool
    adapters.
  - `shell` — scrollback, the sentinel protocol and the session table of
    persistent shells.
  - `agent`, `view` — agent configuration, the round budget and tool rounds,
    and the chat view.
  - `text`, `num` — character-level string and number helpers.
- `tests/` — tests run against the compiled library.
- `app/` — runtime glue: arguments, environment, console and channel approvals,
  PTY sessions, the HTTP event stream, terminal drawing, and the agent's round
  loop driving the library's round decisions.
