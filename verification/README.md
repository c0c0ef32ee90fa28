# eltoo

Wire messages of the eltoo channel protocol and the channel manager's handling of a
request to open a channel, written in Verus.

- `src/ser.rs`: big-endian integers, byte strings and `BigSize`, with read/write functions
  specified over byte sequences, and the lemmas that reading gives back what was written.
- `src/keys.rs`: identifiers, public keys, MuSig2 public nonces and partial signatures. Which
  keys, nonces and signatures are valid is the secp256k1 library's decision; the three
  functions that ask it are the only trusted code of the crate.
- `src/tlv.rs`: TLV streams (ordering, unknown even/odd types, record lengths).
- `src/msgs.rs`: the ten eltoo messages, their models, encodings and decodings, and the
  proof, for each message, that its decoding reads back its encoding.
- `src/channelmanager.rs`: error actions, the `OpenChannelRequest` event and the checks made
  on an incoming `open_channel_eltoo`.
- `app/lib.rs`: conversions between the library's plain values and the types of the
  `bitcoin`, `secp256k1` and `lightning-types` crates.
