//! Decision core of a multi-protocol proxy server.
//!
//! The server listens for TCP connections, UDP datagrams and HTTP or gRPC requests and passes
//! what it gets on to backends. This library decides; the program around it does the input and
//! output. `config` turns a configuration into the proxies to run. `listener` follows one
//! listening socket, `tcp` one relayed connection and `udp` one datagram and its answer.
//! `service` decides where an HTTP request goes and what the client is told; it rests on
//! `request`, which builds the request for the backend, and on `headers`.

pub mod config;
pub mod headers;
pub mod listener;
pub mod request;
pub mod service;
pub mod tcp;
pub mod udp;
