# wrapper

Verified core of a pipeline that wraps a RISC-V program proof into a SNARK:
a RISC wrapper STARK, a compression STARK, and a PLONK SNARK over BN254.

- `src/field_bytes.rs`: big-endian encoding of field representations and
  curve points, with proofs that the encoding is injective.
- `src/vk_hash.rs`: the bytes hashed for a SNARK verification key, their
  layout, the shape check, and the Keccak-256 hash of a key.
- `src/keccak.rs`: the call into `sha3` for Keccak-256.
- `src/pipeline.rs`: parameters and outcomes of the phases (reference string
  source, zero-knowledge padding, error messages, output file names).
- `src/prove_flow.rs`: the proving run as a state machine, with proofs of what
  every run does (phases in order, outputs only after valid proofs, a rejected
  proof ends the run with the phase's error).
- `app/lib.rs`: file I/O, conversion of bellman verification keys into the
  library's plain commitments, the reference string, the loop that runs
  the phases with a caller-supplied prover (panicking when a proof is
  rejected), and key generation with a caller-supplied key generator.

The circuits that make the proofs, and the crates `boojum`, `snark_wrapper`
and `rescue_poseidon` that they rest on, need a nightly compiler and are not
part of this crate.
