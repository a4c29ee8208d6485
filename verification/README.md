# dynproxy

A multi-protocol proxy server. It relays TCP connections, exchanges UDP datagrams with a backend,
and forwards HTTP and gRPC requests. A gRPC request can name its backend in the `x-backend` field;
HTTP proxies have fixed backends. The host field of a request that goes on names its backend. The
client of a UDP exchange gets a datagram that came from the host of the backend and no other.

- `src/` is the library that decides, written and proved in Verus: which proxies a configuration
  calls for, what happens on a listening socket, on a relayed connection and in a datagram
  exchange, where a request goes, which request the backend gets, and what the client is told if
  it gets none.
- `tests/` runs the library on concrete values, with the real `http` crate.
- `app/` is the program: sockets, tasks, logging and the configuration file.

The library holds header maps, request builders, requests and responses of the `http` crate. The
calls into that crate are the functions marked `external_body` and the `assume_specification` in
`src/headers.rs`, `src/request.rs` and `src/service.rs`; what they are taken to do is stated there.

The server reads `config.toml`:

```toml
[[tcp_proxies]]
listen_addr = "0.0.0.0:8081"
backend_addr = "10.0.0.1:9091"

[[udp_proxies]]
listen_addr = "0.0.0.0:8053"
backend_addr = "10.0.0.1:53"

[[http_proxies]]
listen_addr = "0.0.0.0:8080"
backend_addr = "10.0.0.2:8080"

[grpc_proxy]
listen_addr = "0.0.0.0:50051"
default_backend = "10.0.0.3:50051"
```
