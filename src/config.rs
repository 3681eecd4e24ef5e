//! Process configuration: option lookup over the argument list, defaults,
//! and the strings that the configuration determines.
use vstd::prelude::*;
use vstd::string::*;
use crate::policy::{backend_for, select_backend, Backend};

verus! {

/// The value that follows the first occurrence of `key` in `args`, where a
/// value follows it; a key in the last position has no value.
pub open spec fn lookup(args: Seq<String>, key: Seq<char>) -> Option<Seq<char>>
    decreases args.len(),
{
    if args.len() < 2 {
        None
    } else if args[0]@ == key {
        Some(args[1]@)
    } else {
        lookup(args.drop_first(), key)
    }
}

proof fn lemma_lookup_skip(args: Seq<String>, key: Seq<char>, i: int)
    requires
        0 <= i < args.len(),
        i + 1 >= args.len() || args[i]@ != key,
    ensures
        lookup(args.skip(i), key) == lookup(args.skip(i + 1), key),
{
    assert(args.skip(i).drop_first() =~= args.skip(i + 1));
}

/// Returns the argument that follows the first occurrence of `key` in `args`,
/// or `None` where `key` is absent or stands last.
pub fn get_arg(args: &Vec<String>, key: &str) -> (r: Option<String>)
    ensures
        match r {
            Some(v) => lookup(args@, key@) == Some(v@),
            None => lookup(args@, key@) is None,
        },
{
    let wanted = String::from_str(key);
    let mut i: usize = 0;
    assert(args@.skip(0) =~= args@);
    while i < args.len() && i + 1 < args.len()
        invariant
            i <= args.len(),
            wanted@ == key@,
            lookup(args@, key@) == lookup(args@.skip(i as int), key@),
        decreases args.len() - i,
    {
        if args[i] == wanted {
            return Some(args[i + 1].clone());
        }
        proof {
            lemma_lookup_skip(args@, key@, i as int);
        }
        i = i + 1;
    }
    None
}

/// The process-wide settings, fixed at startup.
pub struct Config {
    /// The port to listen on.
    pub port: String,
    /// The text of the status line that greets each client.
    pub status: String,
    /// The address of the UDP gateway backend.
    pub udpgw: String,
}

/// A looked-up value, or `default` where there is none.
pub open spec fn or_default(v: Option<Seq<char>>, default: Seq<char>) -> Seq<char> {
    match v {
        Some(s) => s,
        None => default,
    }
}

impl Config {
    /// The address that this configuration gives to `b`.
    pub open spec fn address_spec(self, b: Backend) -> Seq<char> {
        match b {
            Backend::Ssh => "0.0.0.0:22"@,
            Backend::UdpGateway => self.udpgw@,
            Backend::OpenVpn => "0.0.0.0:1194"@,
        }
    }

    /// Reads the configuration from the argument list: `--port` (default
    /// `80`), `--status` (default `@RustyManager`) and `--udpgw` (default
    /// `127.0.0.1:7300`), each followed by its value.
    pub fn from_args(args: &Vec<String>) -> (r: Config)
        ensures
            r.port@ == or_default(lookup(args@, "--port"@), "80"@),
            r.status@ == or_default(lookup(args@, "--status"@), "@RustyManager"@),
            r.udpgw@ == or_default(lookup(args@, "--udpgw"@), "127.0.0.1:7300"@),
    {
        let port = match get_arg(args, "--port") {
            Some(v) => v,
            None => String::from_str("80"),
        };
        let status = match get_arg(args, "--status") {
            Some(v) => v,
            None => String::from_str("@RustyManager"),
        };
        let udpgw = match get_arg(args, "--udpgw") {
            Some(v) => v,
            None => String::from_str("127.0.0.1:7300"),
        };
        Config { port, status, udpgw }
    }

    /// The greeting written to each new client before anything else: the
    /// status line `HTTP/1.1 101 <status>` and an empty line.
    pub fn handshake(&self) -> (r: String)
        ensures
            r@ == "HTTP/1.1 101 "@ + self.status@ + "\r\n\r\n"@,
    {
        let mut line = String::from_str("HTTP/1.1 101 ");
        line.append(self.status.as_str());
        line.append("\r\n\r\n");
        line
    }

    /// The address to listen on: every interface, IPv6 and IPv4, at the
    /// configured port.
    pub fn listen_address(&self) -> (r: String)
        ensures
            r@ == "[::]:"@ + self.port@,
    {
        let mut addr = String::from_str("[::]:");
        addr.append(self.port.as_str());
        addr
    }

    /// The address of backend `b`: `0.0.0.0:22` for SSH, the configured
    /// gateway for UDP, `0.0.0.0:1194` for OpenVPN.
    pub fn address_of(&self, b: Backend) -> (r: String)
        ensures
            r@ == self.address_spec(b),
    {
        match b {
            Backend::Ssh => String::from_str("0.0.0.0:22"),
            Backend::UdpGateway => self.udpgw.clone(),
            Backend::OpenVpn => String::from_str("0.0.0.0:1194"),
        }
    }

    /// The address that a sniffed payload is relayed to.
    pub fn destination(&self, sniffed: &[u8]) -> (r: String)
        ensures
            r@ == self.address_spec(backend_for(sniffed@)),
    {
        self.address_of(select_backend(sniffed))
    }
}

} // verus!
