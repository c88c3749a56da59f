# rustpbx

A SIP PBX whose decisions are verified with Verus.

- `src/` — the verified library:
  - `sip/` — the SIP message model, its bytes on the wire (`wire`), response
    building, digest authentication, and the `REGISTER` / `INVITE` / `BYE` /
    `CANCEL` / `OPTIONS` handling as functions from a request (and what the store
    answered) to the responses and store changes.
  - `engine/` — configuration, the call table of the back-to-back user agent,
    log records, the REST control answers.
  - `media/` — RTP port allocation and the symmetric relay rule.
  - `gateway/` — what the WebRTC gateway does with each WebSocket frame.
  - `admin/` — the administration rules: defaults of new records, update
    statements, the dashboard, which embedded UI file answers a path.
  - `laws.rs`, `laws/` — properties that span several functions, proved.
- `tests/` — tests of the library on concrete values.
- `app/` — the four services (`sip-engine`, `media-node`, `web-admin`,
  `webrtc-gateway`): sockets, SQLite, HTTP and WebSocket servers, log files.
