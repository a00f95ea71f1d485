# helio_ffi

Value-level core of the C API for the Helio renderer, verified with Verus.

- `src/` — the verified library: generational handles and scene actor ids
  (with their round-trip laws), the numeric codes C callers pass for
  formats, sampler modes, shadow quality, overlays, movability and gizmos,
  renderer settings and their resolution, result values with C-safe error
  text, and the GPU bring-up decisions (adapter choice, surface format
  choice, what to do after acquiring a swapchain texture).
- `app/` — the `extern "C"` entry points: raw-pointer handling, GPU and
  engine calls, floating-point math; they call into the library for every
  decision on plain values.
- `tests/` — executable tests of the library.
