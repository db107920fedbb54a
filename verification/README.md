# Fleet Gateway

An API gateway with a circuit breaker, a chain of keys per provider, and
fallback from one provider to the next.

The decisions are a verified library under `src/`; the program that sends,
waits and listens is under `app/`.

| Module            | What it decides                                                |
|-------------------|----------------------------------------------------------------|
| `circuit_breaker` | whether a request may go to a provider                         |
| `key_chain`       | which key a request carries                                    |
| `error`           | what counts against a provider, and what is retried            |
| `taxonomy`        | the classes of failures that clients see                       |
| `metrics`         | what is counted and reported                                   |
| `config`          | the settings, and the keys that the environment provides       |
| `provider`        | one provider: requests to it, and what its responses mean      |
| `server`          | the providers together, and their health                       |
| `proxy`           | the model a request asks for, and what the client gets back    |
| `chain`           | the way of one request along the providers                     |
| `client`          | the client that calls vendors directly when the gateway is out |
| `clock`, `transport`, `text` | time, transport errors, and text                    |

Each type has a mathematical model (its view), and the contracts are stated
over the models. The laws at the end of each module relate several calls.

Functions that depend on the system clock come in pairs: `record_failure` reads
the clock, `record_failure_at` takes the time as an argument.

What is believed without proof is marked `external_body` or
`external_type_specification`; the comment above each such item says what is
claimed of chrono, dashmap, reqwest, serde_json or the standard library.
