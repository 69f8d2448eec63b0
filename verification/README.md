# bitchat_mesh

The connection manager of a connectionless Bluetooth LE mesh node. A node advertises the mesh
service, serves one GATT characteristic that peers write to without pairing, scans for other
nodes, and hands what it receives to a data handler.

`src/` decides: it holds the manager's state, says which call to make next and with what, and
takes the outcome of each call. It is verified with Verus.

- `setup`: bringing up the adapter.
- `manager`: the state of the node and every operation on it.
- `centrals`: the peers that have written to the node.
- `advertising`, `gatt`: what is advertised, filtered for and served.
- `scan`: picking the mesh devices out of those that the adapter knows.
- `monitor`, `device`: following devices that come and go.
- `agent`: the pairing agent that turns every pairing request down.
- `address`, `protocol`, `error`: addresses, service identifiers, deliveries, errors.
- `laws`: what holds across operations.

`app/` acts: it makes the calls on BlueZ and hands their outcomes to the library.
