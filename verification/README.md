# nota_bot

A QQ chat bot that hands each private message to an LLM agent which can run tools
(a shell, file reads, writes and edits, a glob search, and loading skills), keeping the
conversation in SQLite.

- `src/` is the verified library: the agent's turn as a state machine, the tools' schemas,
  argument reading and text editing, the gateway session (frames, handshake, heartbeats,
  reconnect backoff), the access token's lifetime, the configuration's lookups, the rows
  stored for each message and the reading back of a whole history, what a turn answers,
  which attachments are taken in and their base64 encoding, skill front matter, and the plain JSON model they share.
- `app/` is the program around it: HTTP and websocket I/O, the database, the file system,
  the process that runs shell commands, serde encodings, and the floating point figures of
  the reply footer.
- `tests/` exercises the library on concrete values.
