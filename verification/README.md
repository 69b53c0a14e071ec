# ades

AdES (Advanced Electronic Signatures) for the eIDAS 2.0 ecosystem, written in
Verus: every function of the library carries a contract that Verus proves.

- `src/` — the verified library
  - `signer`: the `Signer` trait (only a digest ever reaches the key) and the
    software backend `SoftSigner`
  - `certificate`, `digest`, `error`: certificates (DER that the `x509-cert`
    decoder accepts), digest algorithms, the error type
  - `cades`, `pades`: CAdES B-B and PAdES B-B signing (milestones M1 and M2;
    they answer `NotImplemented` for now)
  - `dss`: the logic of the DSS validation client — JSON values, request
    bodies, reading the simple report, the command line
- `tests/` — tests of the library
- `app/` — the `dss-client` program: files, HTTP and printing around `dss`

The calls into `x509-cert`, `rsa` and `base64` stand behind small trusted
wrappers whose contracts say what the crates promise.
