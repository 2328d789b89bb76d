# crab_tunnel

UDP hole punching with a rendezvous server, verified with Verus.

Two peers behind NAT routers register with a rendezvous server. When one asks
for the other, the server tells each where the other is, and both send packets
at each other until one gets through or the time is over.

`src/` is the library. It touches no socket and no clock: a state machine says
what to do next and is told what came of it.

| module | contents |
|---|---|
| `addr`, `duration`, `event`, `error` | plain values |
| `wire`, `codec`, `protocol` | messages and their bytes |
| `server`, `server_laws` | the rendezvous server |
| `service`, `service_laws` | the rendezvous server at work: what to send and when to read |
| `hole_punch`, `hole_punch_laws` | the hole punch |
| `client`, `client_laws`, `rendezvous_laws` | a peer's requests and their answers |
| `flow`, `flow_laws` | the whole way from registration to the open hole |

The bytes of single values come from bincode. The functions that call it, in
`codec`, are trusted, and so are those in `error` that ask other errors for
their texts. Everything else is proved.

`app/` holds the sockets: `lib.rs` exports a server and a client for Tokio, and
`main.rs` is the server as a program.
`tests/` runs the library, with a network that keeps its packets in memory.
