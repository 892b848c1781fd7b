//! Data types of the request/response service around the library.
//!
//! The service itself (socket handling, line framing, structured encoding)
//! lives outside the library; here are the request alphabet it decides over
//! and the server configuration and handle, with their contracts. The
//! underlying engine is non-reentrant, so a server processes one request at
//! a time on one thread; the shutdown flag is the only shared state.

use core::sync::atomic::AtomicBool;
use std::sync::Arc;

use vstd::prelude::*;
use vstd::string::StringExecFns;

use crate::ast::Command;

verus! {

/// The default socket path used when the environment selects nothing else.
pub const DEFAULT_SOCKET_PATH: &'static str = "/tmp/bash-ast.sock";

/// A request the service can answer.
#[derive(Debug)]
pub enum Request {
    /// Parse a script into the canonical tree.
    Parse { script: String },
    /// Serialize a canonical tree back into a script.
    ToBash { ast: Command },
    /// Describe the interchange format.
    Schema,
    /// Health check.
    Ping,
}

impl Request {
    /// Check if this is a parse request.
    pub fn is_parse(&self) -> (r: bool)
        ensures
            r == (self is Parse),
    {
        match self {
            Request::Parse { .. } => true,
            _ => false,
        }
    }

    /// Check if this is a serialize request.
    pub fn is_to_bash(&self) -> (r: bool)
        ensures
            r == (self is ToBash),
    {
        match self {
            Request::ToBash { .. } => true,
            _ => false,
        }
    }

    /// Check if this is a schema request.
    pub fn is_schema(&self) -> (r: bool)
        ensures
            r == (self is Schema),
    {
        match self {
            Request::Schema => true,
            _ => false,
        }
    }

    /// Check if this is a ping request.
    pub fn is_ping(&self) -> (r: bool)
        ensures
            r == (self is Ping),
    {
        match self {
            Request::Ping => true,
            _ => false,
        }
    }

    /// Get the script of a parse request.
    pub fn script(&self) -> (r: Option<&str>)
        ensures
            match r {
                Some(s) => self matches Request::Parse { script } && s@ == script@,
                None => !(self is Parse),
            },
    {
        match self {
            Request::Parse { script } => Some(script.as_str()),
            _ => None,
        }
    }
}

/// Server configuration.
#[derive(Debug, PartialEq)]
pub struct ServerConfig {
    /// Path of the socket to listen on.
    pub socket_path: String,
    /// Whether to remove an existing socket file on startup.
    pub remove_existing: bool,
}

impl Default for ServerConfig {
    /// The default configuration: the default socket path, removing any
    /// existing socket file.
    fn default() -> (r: Self)
        ensures
            r.socket_path@ == DEFAULT_SOCKET_PATH@,
            r.remove_existing,
    {
        ServerConfig { socket_path: String::from_str(DEFAULT_SOCKET_PATH), remove_existing: true }
    }
}

impl ServerConfig {
    /// A configuration with the given socket path, removing any existing
    /// socket file.
    pub fn new(socket_path: &str) -> (r: Self)
        ensures
            r.socket_path@ == socket_path@,
            r.remove_existing,
    {
        ServerConfig { socket_path: socket_path.to_owned(), remove_existing: true }
    }
}

/// Relies on `Arc::clone`: the returned handle shares the same flag.
#[verifier::external_body]
fn arc_clone_flag(a: &Arc<AtomicBool>) -> (r: Arc<AtomicBool>)
    ensures
        r == *a,
{
    Arc::clone(a)
}

/// A handle to one service instance: its configuration and the shared
/// shutdown flag.
pub struct Server {
    config: ServerConfig,
    shutdown: Arc<AtomicBool>,
}

impl Server {
    /// The configured socket path.
    pub closed spec fn spec_socket_path(&self) -> Seq<char> {
        self.config.socket_path@
    }

    /// Whether an existing socket file is removed on startup.
    pub closed spec fn spec_remove_existing(&self) -> bool {
        self.config.remove_existing
    }

    /// The shared shutdown flag.
    pub closed spec fn spec_shutdown(&self) -> Arc<AtomicBool> {
        self.shutdown
    }

    /// Create a server handle with the given configuration.
    pub fn new(config: ServerConfig) -> (r: Self)
        ensures
            r.spec_socket_path() == config.socket_path@,
            r.spec_remove_existing() == config.remove_existing,
    {
        Server { config, shutdown: Arc::new(AtomicBool::new(false)) }
    }

    /// Create a server handle with the default socket path.
    pub fn with_default_path() -> (r: Self)
        ensures
            r.spec_socket_path() == DEFAULT_SOCKET_PATH@,
            r.spec_remove_existing(),
    {
        Server::new(ServerConfig::default())
    }

    /// Create a server handle with a custom socket path.
    pub fn with_path(socket_path: &str) -> (r: Self)
        ensures
            r.spec_socket_path() == socket_path@,
            r.spec_remove_existing(),
    {
        Server::new(ServerConfig::new(socket_path))
    }

    /// The configuration the handle was created with.
    pub fn config(&self) -> (r: &ServerConfig)
        ensures
            r.socket_path@ == self.spec_socket_path(),
            r.remove_existing == self.spec_remove_existing(),
    {
        &self.config
    }

    /// Get a handle to the shared flag that signals shutdown.
    pub fn shutdown_handle(&self) -> (r: Arc<AtomicBool>)
        ensures
            r == self.spec_shutdown(),
    {
        arc_clone_flag(&self.shutdown)
    }
}

} // verus!
