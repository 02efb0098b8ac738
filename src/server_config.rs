//! The server's settings.
use vstd::prelude::*;
use crate::agent::or_default;
use crate::models::opt_view;
use crate::text::{copy_text, decimal, decimal_value, is_numeral, parse_decimal, push_char, push_decimal};

verus! {

/// Settings of the server, read once at start.
#[derive(Clone, Debug)]
pub struct Config {
    pub database_url: String,
    pub server_host: String,
    pub server_port: u16,
    pub artifact_dir: String,
}

/// The port: the given number, or 3000 where it is missing or not a port number.
pub open spec fn port_of(o: Option<Seq<char>>) -> u16 {
    match o {
        Some(s) => if is_numeral(s) && decimal_value(s) <= u16::MAX {
            decimal_value(s) as u16
        } else {
            3000
        },
        None => 3000,
    }
}

impl Config {
    /// Settings from raw values: the database URL is required (`None` without
    /// it); the rest default to host `0.0.0.0`, port 3000 and `./artifacts`.
    pub fn from_values(
        database_url: Option<String>,
        server_host: Option<String>,
        server_port: Option<String>,
        artifact_dir: Option<String>,
    ) -> (r: Option<Config>)
        ensures
            database_url is None ==> r is None,
            database_url is Some ==> r is Some && ({
                let c = r.unwrap();
                &&& c.database_url@ == database_url.unwrap()@
                &&& c.server_host@ == or_default(opt_view(server_host), "0.0.0.0"@)
                &&& c.server_port == port_of(opt_view(server_port))
                &&& c.artifact_dir@ == or_default(opt_view(artifact_dir), "./artifacts"@)
            }),
    {
        let database_url = match database_url {
            Some(u) => u,
            None => return None,
        };
        let server_host = match server_host {
            Some(h) => h,
            None => String::from_str("0.0.0.0"),
        };
        let server_port = match &server_port {
            Some(p) => match parse_decimal(p.as_str(), 65535) {
                Some(v) => v as u16,
                None => 3000,
            },
            None => 3000,
        };
        let artifact_dir = match artifact_dir {
            Some(d) => d,
            None => String::from_str("./artifacts"),
        };
        Some(Config { database_url, server_host, server_port, artifact_dir })
    }

    /// The address to listen on: `host:port`.
    pub fn server_addr(&self) -> (r: String)
        ensures
            r@ == self.server_host@.push(':') + decimal(self.server_port as nat),
    {
        let mut s = copy_text(self.server_host.as_str());
        push_char(&mut s, ':');
        push_decimal(&mut s, self.server_port as u64);
        s
    }
}

} // verus!
