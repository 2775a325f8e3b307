# r14_examples

Verified building blocks of the Root14 private-payment demos (a ZK privacy
protocol on Stellar), written in Verus on top of `r14-sdk`.

- `src/field.rs` — elements of the BLS12-381 scalar field as canonical
  32-byte big-endian encodings.
- `src/hex.rs` — the wallet's `0x` hexadecimal text of field elements, and
  the law that it reads back.
- `src/notes.rs` — keys, notes, and the Poseidon owner hash, commitment,
  nullifier and `hash2`.
- `src/merkle.rs` — Merkle roots of the note tree and the offline
  authentication path.
- `src/wallet.rs` — wallet records of notes and their round trip.
- `src/prove.rs` — Groth16 setup, proving, verification and Soroban
  encoding of transfer proofs.
- `src/transfer.rs` — planning and proving a private transfer out of a
  wallet record.
- `src/oracle.rs` — the zkTLS demo: oracle response, commitment, claim.
- `src/settings.rs` — the payment demo's settings and when it goes on-chain.
- `app/` — the demo programs that print each step; the first argument
  names the demo (`basic-keygen`, `offline-notes`, `private-payment`,
  `two-party`, `private-payments`, `zktls`).
