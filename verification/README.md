# nurtex

Libraries for Minecraft bots: the wire codec, the packets of the protocol, the
framing and compression of a connection, the login and configuration of a client,
the decisions of a bot in the world, and a SOCKS5 handshake.

## Layout

- `src/` is the verified library. Every function carries a contract; Verus proves
  all of them but three small trusted wrappers around outside calls (`String::from_utf8`
  and the zlib encoder and decoder of `flate2`), whose contracts are taken as given.
  - `codec/`: cursors, `VarInt` and `VarLong`, big-endian integers, strings,
    containers and identifiers, each with what reading and writing mean over byte
    sequences, and the law that a value reads back as it was written.
  - `protocol/`: the packets of every connection state, frames, zlib compression
    (through `flate2`), and `PacketCodec`, the state of a connection without its
    socket.
  - `client/`: the settings of a client and the steps of login, configuration and
    play as functions from a received packet to what to do.
  - `bot/`: plugins, the decision to connect again, and name checks.
  - `proxy/`: the SOCKS5 handshake as a state machine over the bytes the proxy sends.
- `app/` holds what talks to the network and runs tasks, on top of the library:
  connections over `tokio`, the proxy driver, clients, bots and swarms, and the
  store of entities, whose positions are floating point.
- `tests/` runs the library on concrete values.
