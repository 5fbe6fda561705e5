# mitch

Membership-gossiping swarm library, based on SWIM/Lifeguard, written in
Verus.

- `src/` is the verified library: member identities, the peer list and how
  joins and failures change it, the membership reactor and the failure
  detector as state machines, the protocol messages, their framing on the
  wire, and the handling of incoming messages. The laws that hold of them
  are proof functions next to the code they speak of.
- `app/` runs swarm members on tokio: TLS connections, protobuf encoding of
  the messages, and the tasks and channels that drive the reactor.
- `tests/` exercises the library on concrete values.
