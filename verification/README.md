# goose_cli

Two parts of a command line for agents, with the decisions verified by Verus:

- a layer that traces the spans and log events of a run to Langfuse, and
- the dialogue that configures a profile.

`src/` is the verified library. It holds what the layer knows of a run and turns
each happening into events for Langfuse (`layer`, `events`, `visitor`), puts the
batches together and judges the replies (`ingestion`), and says what the dialogue
asks and makes of the answers (`configure`). `model` describes a layer as a
mathematical value, and `laws` states what holds of every run: all events belong to
one trace, which is announced first and once, and events wait until a batch was sent.
JSON trees come from `serde_json`, identifiers from `uuid` and the time from
`chrono`; `json`, `ids` and `clock` say what is taken for granted of them.

`app/` connects the library to `tracing`, to HTTP and to the terminal.
`tests/` runs the library on concrete values.
