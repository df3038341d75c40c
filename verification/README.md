# seat_agent

A customer-service agent runtime: text and voice conversations answered by a
language model that can call tools (knowledge search, order / refund /
complaint queries, transfer to a human agent), with a layered conversation
context, short- and long-term memory, and OpenAI-compatible model clients.

## Layout

- `src/` — the library, written in Verus and verified: every decision of the
  agent loop (`agent`), the layered context and its token estimate
  (`context`), configuration (`config`, `server_config`), errors (`error`),
  memory trimming and session summaries (`memory`), the built-in tools' rules
  (`tools`), the tool registry (`registry`), JSON field reading (`fields`),
  the event-stream decoding (`sse`), the request wire format and endpoints
  (`openai`), vector-store point ids (`points`), records kept by id
  (`records`), the scripted model (`mock`)
  and text helpers (`text`).
- `tests/` — tests of the library on concrete values.
- `app/` — the service around the library: asynchronous interfaces and their
  implementations (HTTP model and embedding clients, Redis sessions, Qdrant
  and in-memory vector stores), configuration loading, and the console entry
  point.
