# hl_rs

Typed actions for the Hyperliquid exchange API, written in Verus with their wire format
proved against mathematical specifications.

## Layout

- `src/` — the verified library.
  - `actions/` — the action types (L1, trading, perp and spot deploy, user-signed), their
    constructors and builders, and their metadata (`Action`); `kind.rs` reads an action
    whose type is known only at run time, and `kind_laws.rs` proves that a built action
    is read back as its own type.
  - `abi_value.rs` — encoding of action fields as EIP-712 ABI values.
  - `json.rs` — the JSON model the wire format is built on, with its view.
  - `wire.rs` — building the `"action"` object from a payload and reading it back.
  - `signature.rs` — the `{r, s, v}` form of signatures.
  - `signed.rs` — prepared and signed actions and the signed-action envelope.
  - `responses.rs` — exchange responses and order statuses.
  - `sorting.rs` — byte-wise order and the stable sorts the encodings use.
  - `primitives.rs`, `text.rs`, `error.rs` — addresses, 256-bit numbers, decimals, text
    helpers and errors.
- `tests/` — executable tests of the library.
- `app/` — serde copies of the action types, JSON text, wallet signing and float
  parameters, around the library.

## Laws proved

- Extracting the payload from a built L1 action object gives the payload back.
- For a user-signed action every payload field, the nonce included, reads back unchanged
  (a `time` member is read back as the nonce when there is none).
- Every built action object names its type in `"type"`.
- A signed-action envelope reads back with the same nonce, signature, vault address and
  expiry.
- A signature's wire form reads back as the same signature.
- An action object, or a signed-action envelope, read without knowing its type gives back
  the action's own type and the payload reading it as that type gives; a type that no
  action has is kept raw, and the reader of every action type refuses it.
- Perp deploy coin names of ASCII text are the DEX lowercased and the coin uppercased.
- A DEX identifier's text reads back as the same identifier (a HIP-3 name lowercased).
- Preparing an action keeps its own nonce, or takes the given time when it has none, and
  passes the hash or the error of the hasher on unchanged.
- Signing succeeds exactly when the secret key signs the prepared hash.
- Decimal equality compares values and is an equivalence; a trailing zero digit changes
  nothing.
