# crabmic

A voice room over QUIC. Clients greet the server, receive a user
identifier, then stream encoded audio; the server relays each client's
audio to every other user of the room.

- `src/` is the library, verified with Verus:
  - `model` – user identifiers, audio packets, the protocol version and its
    six-byte encoding, the greeting;
  - `wire` – the frames of the audio streams in both directions;
  - `channels` – the users of a room and the channel of each one;
  - `server` – the server's errors, its check of a client's greeting and
    the sequence of user identifiers;
  - `client` – the client's errors, the choice of an audio device by name and
    the state machine of the audio service;
  - `relay` – identifiers, packets and errors of the first form of the
    server;
  - `text`, `payload` – rendering of numbers, and the view of `bytes::Bytes`.
- `app/` holds the asynchronous services (QUIC endpoints, tasks, audio
  devices, codecs, mixing), which do the I/O and hand what they read to the
  library for its decisions; what works on floating-point samples, the
  sequencing of reads and writes, and the walk over the audio host's devices
  stay there.
- `tests/` exercises the library on concrete values.
