# cursor_api

The logic of an API gateway that speaks the OpenAI and Anthropic chat
formats to clients and the Cursor protocol to its backend, written in Verus
with its behaviour stated in contracts and proved.

## Layout

- `src/` — the verified library.
  - `text.rs` — character-level string helpers (prefixes, trimming, lines,
    decimal text) with their specifications.
  - `common/` — shared models: API status and errors, service
    configuration, token payloads, user information, time and duration
    formatting, and utilities (Base64 and Base62, hex, checksums, message
    framing, PKCE pairs, token files and session-token claims).
  - `api/` — the gateway itself: the model registry and display names,
    model-name parsing, request adapters for both chat formats (system
    instructions, turn balancing, the conversation's turns with their
    links and web references, inline-image data), error mapping, dynamic
    keys, request authentication and its outcomes, log queries and paging,
    request bookkeeping,
    the conversion of the backend's chat stream into the OpenAI and
    Anthropic stream formats (one verified step per message), and the
    completion stream's event framing. The request handlers that drive
    these steps (sending requests, holding the token and log stores,
    writing responses, fetching remote images and reading image sizes) are
    not part of the library.
- `tests/` — tests of the library on concrete values.
- `app/` — what stays outside the proofs: environment and clock access,
  reading token payloads as JSON, JSON and protobuf wire forms (including
  the protobuf decoding of error details and dynamic-key configurations
  from the bytes the library decodes), and a display-name cache.

Calls into `base64`, `rand`, `url`, `flate2` and `sha2` go through small
trusted wrappers whose contracts state what those crates document; each
wrapper's doc comment says what is claimed.
