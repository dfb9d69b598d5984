# DirectMessages

An encrypted peer-to-peer messenger over TCP, with a terminal interface. What it
decides and computes is a library verified with Verus; what touches the network,
the disk and the terminal is a thin program around it.

Two peers each hold a persistent identity: an X25519 key for key agreement, and
an Ed25519 key for signing handshakes. When they connect they exchange fresh
ephemeral keys, sign the transcript of all keys, and derive a pair of
directional ChaCha20-Poly1305 keys. A peer's fingerprint is trusted on first
use and checked on every later connection.

## Layout

- `src/crypto.rs`: identities, fingerprints, session keys, and the two halves of
  an encrypted session.
- `src/protocol.rs`: length-prefixed frames, and the handshake as a state
  machine that says what to send and how much to receive.
- `src/state.rs`: the stored keypair and the known peers.
- `src/chat.rs`: a chat with a connected peer.
- `src/screens.rs`, `src/transitions.rs`, `src/app.rs`: the screens of the
  application, what every event makes of it, and the code that does so.
- `src/laws.rs`: what holds of the application as a whole.
- `src/connect.rs`: trying the addresses of a host.
- `src/ui.rs`: what each screen shows.
- `src/cli.rs`: the command-line commands.
- `src/text.rs`, `src/bytes.rs`: texts and byte strings.
- `src/primitives.rs`: the cryptographic functions of other crates. Their
  contracts are trusted, as are the few others marked `external_body` or
  `assume_specification` in `src/text.rs`, `src/state.rs` and `src/chat.rs`.
- `app/`: the program. It carries out what the application asks for.
- `tests/`: tests of the library.

## Files

State lives in the user's config directory under `directmessages/`, or in the
directory that `DIRECTMESSAGES_CONFIG_DIR` names: `keypair.json` has the secret
key, `known_peers.json` the trusted fingerprint of each peer.
