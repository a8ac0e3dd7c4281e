//! The TCP transport: on which ports the listener tries to stand.

use vstd::prelude::*;

verus! {

/// The port that asks the operating system for any free port.
pub const EPHEMERAL_PORT: u16 = 0;

/// The port that the listener asks for at its attempt of this number, the
/// first being attempt 0: port 80, then 8080, then any free port.
pub open spec fn preferred_port(attempt: nat) -> Option<u16> {
    if attempt == 0 {
        Some(80u16)
    } else if attempt == 1 {
        Some(8080u16)
    } else if attempt == 2 {
        Some(EPHEMERAL_PORT)
    } else {
        None
    }
}

/// The port that the listener ends up asking for, given which of the two
/// fixed ports are in use: the first of 80 and 8080 that is free, and any
/// free port where both are in use.
pub open spec fn spec_listener_port(port_80_in_use: bool, port_8080_in_use: bool) -> u16 {
    if !port_80_in_use {
        80
    } else if !port_8080_in_use {
        8080
    } else {
        EPHEMERAL_PORT
    }
}

/// The TCP listener as far as the library holds it: the port on which it
/// stands.
#[derive(Clone, Copy, Debug, PartialEq, Eq, Structural)]
pub struct TcpServer {
    pub port: u16,
}

impl TcpServer {
    /// The port to ask for after `failed_attempts` ports could not be had;
    /// `None` when every port was tried.
    pub fn bind_port(failed_attempts: usize) -> (port: Option<u16>)
        ensures
            port == preferred_port(failed_attempts as nat),
    {
        if failed_attempts == 0 {
            Some(80)
        } else if failed_attempts == 1 {
            Some(8080)
        } else if failed_attempts == 2 {
            Some(EPHEMERAL_PORT)
        } else {
            None
        }
    }

    /// The port that the listener ends up asking for, given which of the
    /// two fixed ports are in use.
    pub fn listener_port(port_80_in_use: bool, port_8080_in_use: bool) -> (port: u16)
        ensures
            port == spec_listener_port(port_80_in_use, port_8080_in_use),
    {
        let mut failed: usize = 0;
        if port_80_in_use {
            failed = 1;
            if port_8080_in_use {
                failed = 2;
            }
        }
        match TcpServer::bind_port(failed) {
            Some(port) => port,
            None => EPHEMERAL_PORT,
        }
    }

    /// The listener that stands on `port`.
    pub fn new(port: u16) -> (server: TcpServer)
        ensures
            server.port == port,
    {
        TcpServer { port }
    }
}

/// The TCP client: it opens connections with a timeout.
#[derive(Clone, Copy, Debug, PartialEq, Eq, Structural)]
pub struct TcpClient {}

impl TcpClient {
    /// Seconds after which an attempt to connect is given up.
    pub fn connect_timeout_secs() -> (seconds: u64)
        ensures
            seconds == 2,
    {
        2
    }
}

} // verus!
