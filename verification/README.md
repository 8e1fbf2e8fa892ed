# openseal

Verified core of a sealing proxy for container APIs. Each response of the
wrapped application is bound to the image's root hash and the caller's Wax
challenge and signed with an ephemeral Ed25519 key; a verifier checks such a
seal offline.

- `src/` — the library, proved with Verus:
  - `hex_text`: lowercase hex text and its decoding (`hex`).
  - `primitives`: BLAKE3 and Ed25519 (`blake3`, `ed25519-dalek`).
  - `json_text`: the standard text of a result body (`serde_json`).
  - `verify`: the verdict on a sealed response.
  - `seal`: A-hash, B-hash and the signed seal.
  - `runtime`: start-up integrity, Wax, forwarded URI, sealed response.
  - `deps`: dependency detection and installation decisions.
  - `image`: image digests, root hashes, and the `docker run` line.
- `app/` — the `openseal` command line and the HTTP proxy (I/O only).
- `tests/` — tests of the library on concrete values.

The A-hash is BLAKE3 of the root hash followed by the Wax, as the protocol
documents. The B-hash binding function is not published by the protocol; the
one in `seal` (keyed BLAKE3 of the result under BLAKE3 of A-hash ‖ Wax) is this
library's own construction.
Because the construction is public, the verifier also checks that a response's
B-hash is the binding of its result under its A-hash and the Wax.
