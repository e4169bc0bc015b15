# dashahan

Verified core of DASH (大傻憨), the macOS shell that runs `dsh web` in a
native window.

- `src/` — the library, proved with Verus:
  - `frame`: WebSocket framing of the dsh event stream (frame decoding with
    unmasking and a size limit, masked Pong replies, base64 and the opening
    handshake with a random key);
  - `json`: the JSON model read from event frames and config.json, parsed
    with serde_json;
  - `notify`: event frames classified, notification
    text and AppleScript escaping, the switch / focus / 10 s debounce / seq
    de-duplication gate, the stream target from the dsh URL;
  - `boot`: the start-up protocol (install, backup, API-key prompt, launch
    with one retry) as a state machine;
  - `server`: dsh web command line, URL, launch wait, npm arguments, readiness
    check, log tail;
  - `shared`: settings (config.json written without the key, and read
    back), the key dialog, the Node.js candidates (bundled first) and choice, paths
    and PATH;
  - `update`: version comparison (semver), the dsh upgrade protocol with
    rollback, the DASH release plan, the update items' offer step, menu texts;
  - `state`: one-shot self-heal, single quit dialog, graceful stop, menu
    commands;
  - `text`: string helpers (search, trim, join, decimal).
- `app/` — the Tauri program: window, menu, processes, files, network and
  keychain, driving the library's decisions.
- `tests/` — the tests.
