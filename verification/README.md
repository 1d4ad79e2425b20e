# Checkgate

The decisions of a feature-flag server, and of the C surface of its mobile SDK, as a Verus library.

The library computes and never waits. Where a decision needs the database, the broadcast channel or
the flag engine, it is a step function: it takes the state and the reply that came in, and gives the
next state and what to ask for next. The contract of each step function is a spec function over the
views of its state, reply and action, and the modules named `*_laws` prove what follows from these
for whole runs, whatever is answered.

| module | what it decides |
| --- | --- |
| `hashing` | the MurmurHash3 of a rollout key |
| `text`, `headers`, `json`, `status`, `cookies` | text, header fields, JSON documents, status codes, the session cookie |
| `credentials` | the SDK key, bearer token and environment that a request carries |
| `identity`, `auth`, `auth_laws` | who a request comes from |
| `access` | what that identity may do |
| `scheduler`, `scheduler_laws`, `scheduler_workers` | scheduled changes, one transaction each, also with several workers |
| `stream`, `sse`, `sse_laws`, `snapshot`, `clients` | the event stream, the flag snapshot, the connected clients |
| `sdk`, `sdk_laws` | the flag store and evaluation surface of the SDK |

Items whose doc comment begins with "Trusted:" call an outside crate or the standard library; their
contracts are believed, and everything else is proved.

`app/` holds what waits: the axum middlewares and handlers, the SQL, the scheduler loop and the C
functions. Its flag engine and its flag API are handed in.
