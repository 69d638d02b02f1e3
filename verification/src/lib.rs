//! A TLS-terminating reverse-proxy gateway, as a library of verified decisions.
//!
//! The gateway accepts HTTPS connections, picks a local backend by virtual
//! host, forwards the request over a persistent connection and answers the
//! client with security headers added. Sockets and threads belong to the
//! program that drives this library; the rules they follow are here, each
//! with a contract:
//!
//! - [`config`]: the host names, their backend ports, and where a request goes;
//! - [`route`]: the routing table of the plain gateway and of the challenges;
//! - [`front`]: what is done with one client connection, step by step;
//! - [`worker`]: the worker that owns the connection to one backend;
//! - [`pool`]: the mailboxes of the workers, by port;
//! - [`lifecycle`]: binding, accepting, draining and leaving;
//! - [`acme`]: the renewal of the certificate and its challenges;
//! - [`http`], [`clock`], [`text`]: messages, clock readings and printable text.

pub mod acme;
mod assoc;
pub mod clock;
pub mod config;
pub mod front;
pub mod http;
pub mod lifecycle;
pub mod pool;
pub mod route;
pub mod text;
pub mod worker;

pub use crate::config::{Config, ProxyGatewayConfig};
pub use crate::text::safe_ascii;
