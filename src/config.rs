//! Server settings: the document root and the address to bind to.
use vstd::prelude::*;
use crate::text::{append_decimal, decimal};

verus! {

/// The settings the server runs on.
pub struct Config {
    /// Directory from which files are served.
    pub base: String,
    /// TCP port to listen on.
    pub port: u16,
    /// Host addresses; the first one is used.
    pub bind: Vec<String>,
}

/// The host part of the bind address: the first configured host, else the loopback address.
pub open spec fn bind_host(bind: Seq<Seq<char>>) -> Seq<char> {
    if bind.len() > 0 {
        bind[0]
    } else {
        "127.0.0.1"@
    }
}

/// The bind address `host:port`.
pub open spec fn bind_address(bind: Seq<Seq<char>>, port: u16) -> Seq<char> {
    bind_host(bind) + ":"@ + decimal(port as nat)
}

/// The views of the configured host addresses.
pub open spec fn hosts_view(bind: Seq<String>) -> Seq<Seq<char>> {
    bind.map_values(|h: String| h@)
}

impl Config {
    pub fn new(base: String, port: u16, bind: Vec<String>) -> (r: Config)
        ensures
            r.base@ == base@,
            r.port == port,
            r.bind@ == bind@,
    {
        Config { base, port, bind }
    }

    pub fn get_base(&self) -> (r: String)
        ensures
            r@ == self.base@,
    {
        self.base.clone()
    }

    pub fn get_bind_address(&self) -> (r: String)
        ensures
            r@ == bind_address(hosts_view(self.bind@), self.port),
    {
        let mut r = if self.bind.len() > 0 {
            self.bind[0].clone()
        } else {
            String::from_str("127.0.0.1")
        };
        r.append(":");
        append_decimal(&mut r, self.port as usize);
        r
    }
}

} // verus!
