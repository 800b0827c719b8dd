# i2p_client

An I2P client that routes envelopes as repliable datagrams through a router's
SAMv3 bridge, attaching to a local router or starting an embedded one.

- `src/` is the verified library (Verus): the SAM line protocol and datagram
  framing (`sam`), configuration, status and the start/stop/send decisions of
  the client (`client`), the embedded router's configuration and bootstrap
  steps (`embedded`), the probe target (`detector`), and the text handling
  and string map they rest on (`text`, `map`). Starting is a state machine:
  each step names the outside work to do next and takes back its outcome.
  Before each send in `auto` mode a second machine re-probes the local bridge
  (at most every 30 s) and moves the session between the local and the
  embedded router, keeping the node's destination.
- `app/` performs that outside work: TCP/UDP sockets to the bridge, the
  destination file, the embedded emissary router, and a thread-safe client
  with the `start`/`stop`/`send`/`receive` interface.
- `tests/` runs the library on concrete inputs.
