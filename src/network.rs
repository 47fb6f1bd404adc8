use vstd::prelude::*;
use crate::decimal::{append_nat, nat_text};

verus! {

/// A server bound to an address and a port.
pub struct Server {
    address: String,
    port: u16,
}

/// `Binding to address:port`
pub open spec fn bind_text(address: Seq<char>, port: u16) -> Seq<char> {
    "Binding to "@ + address + ":"@ + nat_text(port as nat)
}

/// The line logged once the server listens.
pub open spec fn listen_text() -> Seq<char> {
    "Listening for connections"@
}

impl Server {
    pub closed spec fn address(&self) -> Seq<char> {
        self.address@
    }

    pub closed spec fn port(&self) -> u16 {
        self.port
    }

    pub fn new(address: String, port: u16) -> (r: Server)
        ensures
            r.address() == address@,
            r.port() == port,
    {
        Server { address, port }
    }

    /// Starts the server: binds, then listens. Returns the lines it logs, in order.
    pub fn start(&self) -> (r: Vec<String>)
        ensures
            r@.len() == 2,
            r@[0]@ == bind_text(self.address(), self.port()),
            r@[1]@ == listen_text(),
    {
        let mut lines: Vec<String> = Vec::new();
        lines.push(self.bind());
        lines.push(self.listen());
        lines
    }

    fn bind(&self) -> (r: String)
        ensures
            r@ == bind_text(self.address(), self.port()),
    {
        let mut s = String::from_str("Binding to ");
        s.append(self.address.as_str());
        s.append(":");
        append_nat(&mut s, self.port as u64);
        s
    }

    fn listen(&self) -> (r: String)
        ensures
            r@ == listen_text(),
    {
        String::from_str("Listening for connections")
    }
}

/// Connection settings; debugging starts switched off.
pub struct Config {
    pub host: String,
    pub port: u16,
    debug: bool,
}

impl Config {
    pub closed spec fn debug(&self) -> bool {
        self.debug
    }

    pub closed spec fn host_text(&self) -> Seq<char> {
        self.host@
    }

    pub closed spec fn port_number(&self) -> u16 {
        self.port
    }

    pub fn new(host: String, port: u16) -> (r: Config)
        ensures
            r.host_text() == host@,
            r.port_number() == port,
            !r.debug(),
    {
        Config { host, port, debug: false }
    }

    pub fn host(&self) -> (r: &String)
        ensures
            r@ == self.host_text(),
    {
        &self.host
    }

    pub fn port(&self) -> (r: u16)
        ensures
            r == self.port_number(),
    {
        self.port
    }

    /// Switches debugging on, leaving host and port as they were.
    pub fn enable_debug(&mut self)
        ensures
            final(self).debug(),
            final(self).host_text() == old(self).host_text(),
            final(self).port_number() == old(self).port_number(),
    {
        self.debug = true;
    }

    pub fn is_debug(&self) -> (r: bool)
        ensures
            r == self.debug(),
    {
        self.debug
    }
}

} // verus!
