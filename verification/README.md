# esplora_client

A client for the [Esplora](https://github.com/Blockstream/esplora/blob/master/API.md)
HTTP API, with a core that is verified with Verus.

`src/` holds the core. It decides everything and sends nothing:

| module | what it decides |
| --- | --- |
| `builder`, `client` | how the HTTP client is set up: proxy, timeout, headers, connections |
| `endpoints`, `broadcast`, `request`, `address` | the request that each endpoint takes |
| `response`, `retry`, `sleeper` | whether a request is sent again, and after which wait |
| `reply`, `error` | what the outcome of a request comes to |
| `log`, `segment` | what is logged of a request, without its parameters |
| `hex`, `decimal` | the texts of bytes, hashes and numbers |
| `ext` | what is believed of the bitcoin, reqwest and serde_json crates and of std |

Properties that span several functions are proved as functions whose names
start with `law_`.

`app/` sends the requests: a call of one of its methods takes the request from
the core, sends it as often as the core says, and hands the outcome back to the
core. It also waits with the timer of tokio, reads JSON into the types of its
callers, does the floating point arithmetic, and writes the log.
