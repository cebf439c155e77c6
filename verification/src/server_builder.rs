//! A server configured through a builder: host and port are required, the
//! connection limit and the timeout have defaults.

use vstd::prelude::*;

verus! {

/// A configured server.
#[derive(Debug)]
pub struct Server {
    pub host: String,
    pub port: u16,
    pub max_connections: u32,
    pub timeout_secs: u64,
}

/// Collects the settings of a server one at a time.
pub struct ServerBuilder {
    pub host: Option<String>,
    pub port: Option<u16>,
    pub max_connections: Option<u32>,
    pub timeout_secs: Option<u64>,
}

/// The connection limit used when none is set.
pub open spec fn default_max_connections() -> u32 {
    100
}

/// The timeout used when none is set.
pub open spec fn default_timeout_secs() -> u64 {
    30
}

impl ServerBuilder {
    /// A builder with nothing set.
    pub fn new() -> (b: Self)
        ensures
            b.host is None,
            b.port is None,
            b.max_connections is None,
            b.timeout_secs is None,
    {
        ServerBuilder { host: None, port: None, max_connections: None, timeout_secs: None }
    }

    /// Sets the host.
    pub fn host(self, host: &str) -> (b: Self)
        ensures
            b.host matches Some(h) && h@ == host@,
            b.port == self.port,
            b.max_connections == self.max_connections,
            b.timeout_secs == self.timeout_secs,
    {
        let mut b = self;
        b.host = Some(String::from_str(host));
        b
    }

    /// Sets the port.
    pub fn port(self, port: u16) -> (b: Self)
        ensures
            b.port == Some(port),
            b.host == self.host,
            b.max_connections == self.max_connections,
            b.timeout_secs == self.timeout_secs,
    {
        let mut b = self;
        b.port = Some(port);
        b
    }

    /// Sets the connection limit.
    pub fn max_connections(self, max_connections: u32) -> (b: Self)
        ensures
            b.max_connections == Some(max_connections),
            b.host == self.host,
            b.port == self.port,
            b.timeout_secs == self.timeout_secs,
    {
        let mut b = self;
        b.max_connections = Some(max_connections);
        b
    }

    /// Sets the timeout in seconds.
    pub fn timeout_secs(self, timeout_secs: u64) -> (b: Self)
        ensures
            b.timeout_secs == Some(timeout_secs),
            b.host == self.host,
            b.port == self.port,
            b.max_connections == self.max_connections,
    {
        let mut b = self;
        b.timeout_secs = Some(timeout_secs);
        b
    }

    /// The server, or the first missing required setting.
    pub fn build(self) -> (r: Result<Server, String>)
        ensures
            self.host is None ==> (r matches Err(e) && e@ == "host is required"@),
            self.host is Some && self.port is None ==> (r matches Err(e) && e@ == "port is required"@),
            self.host is Some && self.port is Some ==> (r matches Ok(s) && {
                &&& s.host@ == self.host->0@
                &&& s.port == self.port->0
                &&& s.max_connections == (match self.max_connections {
                    Some(m) => m,
                    None => default_max_connections(),
                })
                &&& s.timeout_secs == (match self.timeout_secs {
                    Some(t) => t,
                    None => default_timeout_secs(),
                })
            }),
    {
        let host = match self.host {
            Some(h) => h,
            None => {
                return Err(String::from_str("host is required"));
            },
        };
        let port = match self.port {
            Some(p) => p,
            None => {
                return Err(String::from_str("port is required"));
            },
        };
        let max_connections = match self.max_connections {
            Some(m) => m,
            None => 100,
        };
        let timeout_secs = match self.timeout_secs {
            Some(t) => t,
            None => 30,
        };
        Ok(Server { host, port, max_connections, timeout_secs })
    }
}

impl Server {
    /// A builder with nothing set.
    pub fn builder() -> (b: ServerBuilder)
        ensures
            b.host is None,
            b.port is None,
            b.max_connections is None,
            b.timeout_secs is None,
    {
        ServerBuilder::new()
    }
}

} // verus!
