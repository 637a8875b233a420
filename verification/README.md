# captura

Cross-platform screen capture for Node.js, with its logic verified by Verus.

- `src/` is the verified library:
  - `error` — the error codes and the error value (code fixed by variant);
  - `monitor` — geometry, screenshots, and the image-format model with its
    case-insensitive parser;
  - `encoding` — RGBA validation and encoding through the `image` crate,
    alpha stripping for JPEG, and Base64 output;
  - `base64` — the RFC 4648 standard Base64 text and its decoding laws;
  - `capture` — monitor selection and the fail-fast turning of captures
    into screenshots;
  - `interop` — the format argument, the refusal of `Raw` for Base64, the
    `[CODE] description` error text;
  - `text` — decimal rendering and ASCII case-insensitive comparison.
- `app/` is the unverified shell: operating-system access through `xcap`,
  floating-point geometry scaling, blocking work on `tokio`, and the `napi`
  binding.
- `tests/` runs the library against the real `image` and `base64` crates.
