# discord_controls

A Stream Deck / OpenDeck plugin that drives the local Discord desktop client
over Discord RPC: it joins and leaves voice channels, toggles screen sharing
and plays soundboard sounds, with one shared OAuth configuration.

Each key is bound to one of three actions, told apart by its action UUID:
one that names `screenshare` toggles screen sharing, one that names
`soundboard` plays the sound stored for the key (`guildId` + `soundId`), and
any other joins the key's voice channel, or leaves it when it joined last.
A forced join (`force: true`) follows only a refusal with error code 5003.

## Layout

- `src/` is the verified library. Every decision the plugin makes lives here,
  with its contract:
  - `models`: settings and summaries, key titles, server icon URLs;
  - `rpc`: Discord RPC commands, the replies to them, the handshake, the
    authorization flow as a state machine, and the client's bookkeeping;
  - `plugin`: what each host event changes in the plugin's state and what it
    sends back; `outbound` and `stream_deck`: those messages as JSON;
  - `frame`: the IPC framing, with JSON bodies read and written through
    `serde_json`; `icons`: icon download URLs and data URIs;
  - `args`: the command line; `registry`, `json`, `text`, `decimal`,
    `failure`: the data structures and text handling underneath.
- `app/` is the executable around it: the websocket to the host, the Discord
  IPC socket, HTTP requests, the typed reading of settings and replies, and
  the event loop.
- `tests/` runs the library on concrete values.
