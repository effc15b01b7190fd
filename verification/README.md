# writ-client

Client logic for a local workflow agent (a daemon with an HTTP API on the loopback
interface) and for its cloud tier, written in Rust and proved with Verus.

`src/` decides and computes; it does no I/O. The functions there carry contracts that fix
their results. The exceptions read the clock or draw by chance (`unix_now`, `clock_jitter`,
`RetryPolicy::backoff`, `sign_webhook_request`, `random_bytes_16`, and `verify_webhook` where
no time is given): theirs say what holds whatever came back, and a function beside each takes
the drawn value and is exact. The laws that span functions are public proof functions whose names
begin with `law_`. `app/` is the asynchronous client around it: it sends the requests that
the library builds, reads what comes back, keeps the clock, and hands all of that to the
library as plain values.

| Module | What it holds |
| --- | --- |
| `client`, `discovery` | settings of a client, and finding a live daemon |
| `resources`, `request` | one request for each endpoint of the daemon |
| `cloud`, `cloud_verbs`, `cloud_models` | tiers, headers, refusals, requests and answers of the cloud |
| `error`, `page`, `decode`, `models`, `files` | answers: errors, lists, and what is read out of them |
| `json` | JSON documents |
| `retry`, `call` | which failures are retried, how often, after what wait, and that a repetition is the same message |
| `sse`, `streams` | event streams, and waiting for a run or a build |
| `watch` | walking the change feed by its cursor |
| `webhook` | verifying and signing webhook deliveries |
| `wire`, `text`, `time` | encodings, text and spans of time |

What is taken on trust are calls into `hmac` and `sha2` (tags), `serde_json` (reading a
document), `http` by way of `reqwest` (which bytes a header may hold), and into `std` (the
clock, random hashing, lossy decoding, pushing a character). Each stands in one small
function whose comment says what is believed of it.

Tests in `tests/` run the library on concrete values with those crates linked.
