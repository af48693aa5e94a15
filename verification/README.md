# openssl_provider_forge

Building blocks for OpenSSL 3 providers written in Rust, with their
behaviour stated as contracts and proved with Verus.

## Layout

- `src/` — the verified library.
  - `lib.rs`: TLS and DTLS protocol versions (raw numbers, ordering) and the
    library's error type.
  - `bindings.rs`: the OpenSSL core definitions the library uses, as plain
    values: dispatch table entries, algorithm entries, parameter data types,
    capability keys, core function ids.
  - `osslparams.rs` and `osslparams/`: OpenSSL parameters. `OSSL_PARAM` is a
    parameter record (its key, data type, the memory its data pointer refers
    to, data size and returned size); `OSSLParam` borrows a caller's record,
    views it through its data type and reads and writes its value in place,
    as OpenSSL's parameter functions do. `encoding.rs` holds the byte layouts (little-endian two's complement
    integers, C strings), `data/` the per-type behaviour, `laws.rs` the
    properties that span operations (a value stored is the value read back,
    a refused store changes nothing, a list is walked to its end record).
  - `operations/`: key selection flags and the decision whether a decoder
    handles a selection.
  - `capabilities/tls_group.rs`: the parameter list that describes a TLS
    group to `libssl`.
  - `ossl_callback.rs`: OpenSSL callbacks with their argument.
  - `upcalls.rs`: the core's dispatch table, indexed by function id, and the
    bookkeeping of repeated `BIO_read_ex` / `BIO_write_ex` upcalls.
- `app/` — the C side: `#[repr(C)]` records, their conversion to and from the
  library's values, and the calls through C function pointers (callbacks and
  upcalls), which follow the library's decisions.
- `tests/` — tests of the library.
