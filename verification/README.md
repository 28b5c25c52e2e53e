# spe

The secure processing environment of a PSA-style platform: a secure
partition manager (SPM) that carries calls from the non-secure side and
between services, and the crypto and initial attestation services that run
under it. The library is written in Verus; each public function states its
behaviour in `requires` / `ensures` and is proved against it. Where a
board's platform, a service or the token encoder decides an outcome, the
contract states it over what that party answers, as its trait describes.

Layout:

- `src/status.rs`, `src/types.rs`: PSA status codes, service handles, the
  packed control parameter and vector descriptors.
- `src/spm/`: the stack of calls in progress (`connection_stack`), the
  function-call manager (`spm_fn`), service processes and their memory
  layout (`process`) and the IPC manager (`spm_ipc`).
- `src/spm_api/`: call validation, the connection record and the
  map / release / commit protocol of IO vectors (`connection`), and the
  supervisor-call dispatch (`svc`).
- `src/mpu.rs`: the MPU regions a sandboxed service runs under.
- `src/cbor.rs`, `src/attest/`: the CBOR encoding of attestation claims, the
  token size, and the attestation service's checks and boot-record parsing.
- `src/crypto.rs`: P-256 signing and SHA-256 hashing with the PSA checks.
- `src/libs.rs`, `src/hil.rs`, `src/service.rs`: a lock, a write-once cell,
  hardware interfaces and the service description.
- `app/`: the unverified glue: how services reach their vectors, the service
  implementations on top of that, and the steps that only run on the target
  (supervisor calls, MPU programming).
- `tests/`: tests of the library.
