//! Startup configuration: the network port the reply transport listens on.
//!
//! The persisted key-value store itself is an outside collaborator; the
//! library receives the raw stored value (if any) and decides the port.

use vstd::prelude::*;

verus! {

/// The configured port a stored value stands for: a stored value that fits
/// in sixteen bits is taken as is, anything else falls back to the default.
pub open spec fn spec_port_of(stored: Option<u32>) -> u16 {
    match stored {
        Option::Some(v) => if v <= u16::MAX as u32 {
            v as u16
        } else {
            crate::DEFAULT_PORT
        },
        Option::None => crate::DEFAULT_PORT,
    }
}

/// Startup configuration, computed once at attach time.
pub struct Config {
    port: u16,
}

impl Config {
    /// The port this configuration holds.
    pub closed spec fn spec_port(&self) -> u16 {
        self.port
    }

    /// Builds the configuration from the raw value read out of the persisted
    /// store, falling back to the default port when the value is absent or
    /// does not fit a sixteen-bit port number.
    pub fn new(stored_port: Option<u32>) -> (r: Config)
        ensures
            r.spec_port() == spec_port_of(stored_port),
    {
        let port: u16 = match stored_port {
            Option::Some(v) => {
                if v <= u16::MAX as u32 {
                    v as u16
                } else {
                    crate::DEFAULT_PORT
                }
            },
            Option::None => crate::DEFAULT_PORT,
        };
        Config { port }
    }

    /// The port the reply transport should bind.
    pub fn port(&self) -> (r: u16)
        ensures
            r == self.spec_port(),
    {
        self.port
    }
}

} // verus!
