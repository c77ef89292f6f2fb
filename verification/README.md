# rust_vpn

The core of a small IPv4 VPN server, written in Verus and proved against its
contracts.

- `src/registry.rs`: the registry of peers. It hands out the tunnel addresses
  `10.0.0.2` to `10.0.0.10` from a pool, routes each address to its peer, and
  takes addresses back when peers leave. `RegistryView` is its mathematical
  model; every operation is specified as a function on that model.
- `src/laws.rs`: properties of the registry proved once for all states:
  every address of the range is either free or routed, never both; the
  capacity of nine; every operation keeps the registry's invariant and the
  balance of peers and free addresses; round trips and reuse; what a listing
  of peers holds, also after any sequence of manager requests. An endpoint
  registered a second time gets a fresh address while its earlier address
  stays routed to it. `Registry::lemma_view` carries these laws over to any
  registry.
- `src/manager.rs`: the peer manager's handling of one request: the change
  to the registry and the exact answer, paired with the request's own
  one-shot channel; `app/` sends it.
- `src/messages.rs`, `src/errors.rs`, `src/net.rs`, `src/peer.rs`: the
  values exchanged and stored.
- `src/device.rs`, `src/packet.rs`: opening a tunnel device from plain
  settings and reading the internet layer of a packet, through the `tun` and
  `packet_parser` crates.
- `src/supervisor.rs`: how the server reacts when one of its tasks ends.
- `app/`: the programs (the server, and a reader that prints the packets of a
  local tunnel device), with the network, serialization and async plumbing.
