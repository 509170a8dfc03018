# starnet

The verified core of StarNet, a remote desktop system: a host shares its
screen with a client through a WebSocket signaling server, and the client
sends mouse and keyboard input back.

- `src/` is the library, verified with Verus:
  - `identity`: device and session identifiers (session identifiers are
    random version 4 UUIDs, shown in their hyphenated form);
  - `config`, `events`: screen configuration, input events, control and
    signaling messages;
  - `capture`: the capture trait and the platform stub, and the decisions of
    the DXGI desktop-duplication capturer (its start/stop state, the choice
    of display output, the desktop size, the error kinds, and the packing of
    pixel rows);
  - `encode`, `input`: encoder/decoder and input-simulator traits and stubs;
  - `transport`: the host/client messages, their framing and filtering, and
    each side's connection state;
  - `signal`: the signaling server's device registry and the per-connection
    state machine, with the laws it keeps.
- `app/` is the signaling server program and the I/O around the library:
  sockets, channels, JSON (serde), the async `Transport` trait, error
  messages, and the Direct3D/DXGI calls on Windows.
- `tests/` runs the library on concrete values.
