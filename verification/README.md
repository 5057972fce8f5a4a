# drive9_mobile_core

The core of the drive9 mobile client: every decision that the client takes
between two network or file operations, as Rust functions with contracts that
Verus proves.

## How it works

The library performs no I/O. An operation that is a single request is described
by a `ClientCall`, and the reply is turned into what Kotlin and Swift callers see.
An operation of several steps is a state machine that is asked what to do next
and told what came of it:

| Type | Operation |
| --- | --- |
| `stream::StreamWriter` | multipart upload whose parts arrive one by one |
| `upload::Drive9StreamUpload` | the life of such an upload as callers see it |
| `transfer::FileUpload` | upload of a file, in one request or in parts |
| `download::FileDownload` | download to a file, by way of a temporary file |
| `chunks::Drive9StreamDownload` | download that is read chunk by chunk |
| `patch::PartRead` | reading a part of a local file for a patch |
| `cancel::wait` | waiting for cancellation |

Errors arrive as the single variant `Drive9Exception::Drive9` with `code`,
`status_code`, `detail` and `server_revision`. The code is one of `http_status`,
`conflict`, `request`, `json`, `io`, `other` and `cancelled`.

## Layout

- `src/` is the library. `stream_model.rs` is the mathematical model of a
  streaming upload; `stream_laws.rs`, `download_laws.rs` and `transfer_laws.rs`
  prove what holds of every run. The few functions that call `serde_json` or parts
  of `std` without a specification are in `json.rs`, `error.rs` and `paths.rs`;
  their doc comments say what is trusted.
- `app/` runs the state machines on Tokio and carries the UniFFI interface. It is
  built with `--cfg bindings` to generate the Kotlin and Swift scaffolding.
- `tests/` runs the library against servers and disks that live in the tests.
