# thetadatadx_ffi_core

The decision logic of the ThetaDataDx C ABI (`thetadatadx_*` and the older
`tdx_*` surface) and of its Python bindings, written in Verus and proved
against its contracts.

- `src/` — the verified library: error codes and the per-thread error slot,
  C-string and subscription-request decoding, the streaming-handle
  lifecycle, the dispatcher slot and health checks, the drain barrier,
  reconnect and registration step machines, the conversion of streaming
  events into the C record and the Python queue, the batch-reader entry
  points, and the Python exception hierarchy, argument rules, streaming
  reservations and attribute routing.
- `tests/` — scenario tests of the library.
- `app/` — the binding layer: raw pointers, thread-local storage, threads,
  SDK handles, floating-point price decoding and the Python interpreter. It
  performs the work the step machines ask for and feeds the outcomes back.
