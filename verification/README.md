# ktalk_bot

A headless client library for KTalk, a Jitsi-based conferencing service,
verified with Verus.

- `src/` is the verified library:
  - `text` — character-level string operations (trimming, searching,
    replacing, decimal numbers) specified over `Seq<char>`;
  - `domain` — session tokens, room links and short names, conference
    history records, participant snapshots;
  - `infrastructure` — decoded HTTP responses, the history mapper, the
    history pager, the XMPP presence reader, token files, and the calls into
    `serde_json`, `regex` and `uuid`;
  - `application` — the XMPP session state machine, the system-websocket
    messages, websocket addresses, room binding, and the decisions around a
    stay in a room (loop steps, combining the session results, audio
    publishing);
  - `interface` — flat result records for script bindings.
- `app/` performs the HTTP requests (`reqwest`), runs the websocket sessions
  (`tokio`, `tokio-tungstenite`), reads token files and decodes JSON
  responses (`serde`), driving the library's decisions.
- `tests/` exercises the library on concrete values.
