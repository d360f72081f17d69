# ot_in_rust

Bellare-Micali 1-out-of-2 oblivious transfer over secp256k1, verified with Verus.

- `src/group.rs`: points (compressed SEC1 bytes, always canonical) and secret
  scalars (big-endian bytes); the group arithmetic is done by `generic_ec`.
- `src/crypto.rs`: HKDF-SHA256 key derivation from a shared point and the
  nonce-prefixed ChaCha20-Poly1305 payload format.
- `src/states.rs`: the sender (setup, transition, transmit) and receiver (key
  selection, decryption) state machines, and the correctness laws: the shared
  point at the chosen index, and the receiver obtaining the chosen message.
- `src/errors.rs`: the protocol errors.
- `app/lib.rs`: `ProtocolError`, a wrapper of `OtError` that has `Display` and
  `std::error::Error`.
