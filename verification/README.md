# saasy_orchestrator

The decision-making core of a real-time AI voice orchestrator, verified with
Verus. The orchestrator joins voice sessions as an AI participant: it checks a
session's provider selections against the edge catalogue, negotiates media with
the signalling server and the listening and speaking engines, and runs the
turn-taking loop between speech-to-text, the LLM and text-to-speech.

## Layout

- `src/` — the verified library.
  - `config.rs`, `stores.rs` — required settings and the credential stores.
  - `edge.rs` — the provider catalogue and its membership checks.
  - `llm/` — provider selection, client settings, and the request and
    stream-event formats of each LLM API.
  - `engines.rs` — the engine control protocol: envelopes, routing of
    requests and responses, and the table of pending requests.
  - `session/` — the session state machine (`state`), the turn-taking loop's
    decisions (`turn`), sentence chunking and audio framing (`speech`), the
    session registry, admission of new sessions, and media negotiation.
  - `health.rs`, `ids.rs`, `clock.rs`, `text.rs` — small shared pieces.
- `tests/` — tests of the library on concrete values.
- `app/` — the asynchronous service around the library: gRPC and HTTP
  clients, the provider clients, the session tasks and `main`. It performs the
  actions the library decides on. It also refers to the signalling WebSocket
  clients, the STT and TTS clients, the Groq and xAI clients, the HTTP health
  endpoints and the system prompt (`app/prompts/system.md`), which are not
  part of this repository.
