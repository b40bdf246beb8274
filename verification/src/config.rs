//! Service descriptors: how a proxy accepts its clients and how it reaches
//! the upstream server.

use vstd::prelude::*;
use vstd::string::*;

verus! {

/// Port used by a plaintext endpoint when none is given.
pub const DEFAULT_IMAP_PORT: u16 = 143;

/// Port used by a TLS endpoint when none is given.
pub const DEFAULT_IMAPS_PORT: u16 = 993;

pub fn default_imap_port() -> (port: u16)
    ensures
        port == DEFAULT_IMAP_PORT,
{
    DEFAULT_IMAP_PORT
}

pub fn default_imaps_port() -> (port: u16)
    ensures
        port == DEFAULT_IMAPS_PORT,
{
    DEFAULT_IMAPS_PORT
}

/// The character that writes the digit `d`.
pub open spec fn digit_char(d: nat) -> char {
    if d == 0 {
        '0'
    } else if d == 1 {
        '1'
    } else if d == 2 {
        '2'
    } else if d == 3 {
        '3'
    } else if d == 4 {
        '4'
    } else if d == 5 {
        '5'
    } else if d == 6 {
        '6'
    } else if d == 7 {
        '7'
    } else if d == 8 {
        '8'
    } else {
        '9'
    }
}

/// The decimal numeral of `n`, without leading zeros.
pub open spec fn decimal(n: nat) -> Seq<char>
    decreases n,
{
    if n < 10 {
        seq![digit_char(n)]
    } else {
        decimal(n / 10).push(digit_char(n % 10))
    }
}

/// `host:port`, the form in which an endpoint is handed to the network layer.
pub open spec fn endpoint(host: Seq<char>, port: u16) -> Seq<char> {
    host + seq![':'] + decimal(port as nat)
}

/// `scheme://host:port (label)`, the form in which an endpoint is shown.
pub open spec fn endpoint_url(scheme: Seq<char>, host: Seq<char>, port: u16, label: Seq<char>) -> Seq<
    char,
> {
    scheme + seq![':', '/', '/'] + endpoint(host, port) + seq![' ', '('] + label + seq![')']
}

fn digit_str(d: u16) -> (s: &'static str)
    requires
        d < 10,
    ensures
        s@ == seq![digit_char(d as nat)],
{
    proof {
        reveal_strlit("0");
        reveal_strlit("1");
        reveal_strlit("2");
        reveal_strlit("3");
        reveal_strlit("4");
        reveal_strlit("5");
        reveal_strlit("6");
        reveal_strlit("7");
        reveal_strlit("8");
        reveal_strlit("9");
    }
    let s = if d == 0 {
        "0"
    } else if d == 1 {
        "1"
    } else if d == 2 {
        "2"
    } else if d == 3 {
        "3"
    } else if d == 4 {
        "4"
    } else if d == 5 {
        "5"
    } else if d == 6 {
        "6"
    } else if d == 7 {
        "7"
    } else if d == 8 {
        "8"
    } else {
        "9"
    };
    assert(s@ =~= seq![digit_char(d as nat)]);
    s
}

fn push_decimal(out: &mut String, n: u16)
    ensures
        final(out)@ == old(out)@ + decimal(n as nat),
    decreases n,
{
    if n >= 10 {
        push_decimal(out, n / 10);
    }
    out.append(digit_str(n % 10));
    proof {
        if n >= 10 {
            assert(old(out)@ + decimal(n as nat / 10) + seq![digit_char(n as nat % 10)] =~= old(
                out,
            )@ + decimal(n as nat));
        }
    }
}

fn endpoint_string(host: &String, port: u16) -> (s: String)
    ensures
        s@ == endpoint(host@, port),
{
    let mut s = host.clone();
    proof {
        reveal_strlit(":");
    }
    s.append(":");
    push_decimal(&mut s, port);
    assert(s@ =~= endpoint(host@, port));
    s
}

fn endpoint_url_string(scheme: &str, host: &String, port: u16, label: &str) -> (s: String)
    ensures
        s@ == endpoint_url(scheme@, host@, port, label@),
{
    let mut s = String::from_str(scheme);
    proof {
        reveal_strlit("://");
        reveal_strlit(":");
        reveal_strlit(" (");
        reveal_strlit(")");
    }
    s.append("://");
    s.append(host.as_str());
    s.append(":");
    push_decimal(&mut s, port);
    s.append(" (");
    s.append(label);
    s.append(")");
    assert(s@ =~= endpoint_url(scheme@, host@, port, label@));
    s
}

/// Cryptographic material needed to accept a TLS connection.
#[derive(Debug, PartialEq, Eq)]
pub enum Identity {
    /// Certificate chain and leaf key, both in PEM files.
    CertificateChainAndLeafKey {
        /// Path to the certificate chain (in PEM format).
        certificate_chain_path: String,
        /// Path to the leaf key (in PEM format).
        leaf_key_path: String,
    },
}

/// How client connections are accepted.
#[derive(Debug, PartialEq, Eq)]
pub enum Bind {
    /// Accept non-encrypted connections from clients.
    Insecure {
        host: String,
        port: u16,
    },
    /// Accept TLS-encrypted connections from clients.
    Tls {
        host: String,
        port: u16,
        /// What the proxy presents to the client.
        identity: Identity,
    },
}

/// How the upstream server is reached.
#[derive(Debug, PartialEq, Eq)]
pub enum Connect {
    /// Open a non-encrypted connection to the server.
    Insecure {
        host: String,
        port: u16,
    },
    /// Open a TLS-encrypted connection to the server.
    Tls {
        host: String,
        port: u16,
    },
}

/// One proxied service.
#[derive(Debug, PartialEq, Eq)]
pub struct Service {
    /// Name of the service, e.g. "Best Email Provider".
    pub name: String,
    /// How to accept client connections.
    pub bind: Bind,
    /// How to establish server connections.
    pub connect: Connect,
}

/// The services a proxy process runs.
#[derive(Clone, Debug, PartialEq, Eq)]
pub struct Config {
    pub services: Vec<Service>,
}

impl Clone for Identity {
    fn clone(&self) -> (out: Identity)
        ensures
            out == *self,
    {
        match self {
            Identity::CertificateChainAndLeafKey { certificate_chain_path, leaf_key_path } => {
                Identity::CertificateChainAndLeafKey {
                    certificate_chain_path: certificate_chain_path.clone(),
                    leaf_key_path: leaf_key_path.clone(),
                }
            },
        }
    }
}

impl Clone for Bind {
    fn clone(&self) -> (out: Bind)
        ensures
            out == *self,
    {
        match self {
            Bind::Insecure { host, port } => Bind::Insecure { host: host.clone(), port: *port },
            Bind::Tls { host, port, identity } => Bind::Tls {
                host: host.clone(),
                port: *port,
                identity: identity.clone(),
            },
        }
    }
}

impl Clone for Connect {
    fn clone(&self) -> (out: Connect)
        ensures
            out == *self,
    {
        match self {
            Connect::Insecure { host, port } => Connect::Insecure {
                host: host.clone(),
                port: *port,
            },
            Connect::Tls { host, port } => Connect::Tls { host: host.clone(), port: *port },
        }
    }
}

impl Clone for Service {
    fn clone(&self) -> (out: Service)
        ensures
            out == *self,
    {
        Service {
            name: self.name.clone(),
            bind: self.bind.clone(),
            connect: self.connect.clone(),
        }
    }
}

impl Identity {
    /// Path to the certificate chain (in PEM format). Its first certificate
    /// is the leaf.
    pub fn certificate_chain_path(&self) -> (path: &String)
        ensures
            *self == (Identity::CertificateChainAndLeafKey {
                certificate_chain_path: *path,
                leaf_key_path: self->leaf_key_path,
            }),
    {
        match self {
            Identity::CertificateChainAndLeafKey { certificate_chain_path, .. } => {
                certificate_chain_path
            },
        }
    }

    /// Path to the key of the leaf certificate (in PEM format).
    pub fn leaf_key_path(&self) -> (path: &String)
        ensures
            *self == (Identity::CertificateChainAndLeafKey {
                certificate_chain_path: self->certificate_chain_path,
                leaf_key_path: *path,
            }),
    {
        match self {
            Identity::CertificateChainAndLeafKey { leaf_key_path, .. } => leaf_key_path,
        }
    }
}

impl Bind {
    pub open spec fn spec_host(&self) -> Seq<char> {
        match self {
            Bind::Insecure { host, .. } => host@,
            Bind::Tls { host, .. } => host@,
        }
    }

    pub open spec fn spec_port(&self) -> u16 {
        match self {
            Bind::Insecure { port, .. } => *port,
            Bind::Tls { port, .. } => *port,
        }
    }

    /// What `to_string` yields.
    pub open spec fn spec_display(&self) -> Seq<char> {
        if self is Tls {
            endpoint_url("imaps"@, self.spec_host(), self.spec_port(), "TLS"@)
        } else {
            endpoint_url("imap"@, self.spec_host(), self.spec_port(), "insecure"@)
        }
    }

    /// What the proxy presents to a client: something where clients are
    /// accepted over TLS, nothing where they are not.
    pub fn identity(&self) -> (identity: Option<&Identity>)
        ensures
            identity is Some <==> self is Tls,
            identity matches Some(id) ==> *id == self->identity,
    {
        match self {
            Bind::Tls { identity, .. } => Some(identity),
            Bind::Insecure { .. } => None,
        }
    }

    /// An insecure endpoint on the default plaintext port.
    pub fn insecure(host: String) -> (bind: Bind)
        ensures
            bind == (Bind::Insecure { host, port: DEFAULT_IMAP_PORT }),
    {
        Bind::Insecure { host, port: default_imap_port() }
    }

    /// A TLS endpoint on the default TLS port.
    pub fn tls(host: String, identity: Identity) -> (bind: Bind)
        ensures
            bind == (Bind::Tls { host, port: DEFAULT_IMAPS_PORT, identity }),
    {
        Bind::Tls { host, port: default_imaps_port(), identity }
    }

    /// Creates a `host:port` `String`.
    pub fn addr_port(&self) -> (s: String)
        ensures
            s@ == endpoint(self.spec_host(), self.spec_port()),
    {
        match self {
            Bind::Tls { host, port, .. } => endpoint_string(host, *port),
            Bind::Insecure { host, port } => endpoint_string(host, *port),
        }
    }

    /// `imaps://host:port (TLS)` or `imap://host:port (insecure)`.
    pub fn to_string(&self) -> (s: String)
        ensures
            s@ == self.spec_display(),
    {
        match self {
            Bind::Tls { host, port, .. } => endpoint_url_string("imaps", host, *port, "TLS"),
            Bind::Insecure { host, port } => endpoint_url_string("imap", host, *port, "insecure"),
        }
    }
}

impl Connect {
    pub open spec fn spec_host(&self) -> Seq<char> {
        match self {
            Connect::Insecure { host, .. } => host@,
            Connect::Tls { host, .. } => host@,
        }
    }

    pub open spec fn spec_port(&self) -> u16 {
        match self {
            Connect::Insecure { port, .. } => *port,
            Connect::Tls { port, .. } => *port,
        }
    }

    /// What `to_string` yields.
    pub open spec fn spec_display(&self) -> Seq<char> {
        if self is Tls {
            endpoint_url("imaps"@, self.spec_host(), self.spec_port(), "TLS"@)
        } else {
            endpoint_url("imap"@, self.spec_host(), self.spec_port(), "insecure"@)
        }
    }

    /// The name by which the server is known in TLS: its host where the
    /// server is reached over TLS, nothing where it is not.
    pub fn server_name(&self) -> (name: Option<&String>)
        ensures
            name is Some <==> self is Tls,
            name matches Some(host) ==> host@ == self.spec_host(),
    {
        match self {
            Connect::Tls { host, .. } => Some(host),
            Connect::Insecure { .. } => None,
        }
    }

    /// An insecure endpoint on the default plaintext port.
    pub fn insecure(host: String) -> (connect: Connect)
        ensures
            connect == (Connect::Insecure { host, port: DEFAULT_IMAP_PORT }),
    {
        Connect::Insecure { host, port: default_imap_port() }
    }

    /// A TLS endpoint on the default TLS port.
    pub fn tls(host: String) -> (connect: Connect)
        ensures
            connect == (Connect::Tls { host, port: DEFAULT_IMAPS_PORT }),
    {
        Connect::Tls { host, port: default_imaps_port() }
    }

    /// Creates a `host:port` `String`.
    pub fn addr_port(&self) -> (s: String)
        ensures
            s@ == endpoint(self.spec_host(), self.spec_port()),
    {
        match self {
            Connect::Tls { host, port } => endpoint_string(host, *port),
            Connect::Insecure { host, port } => endpoint_string(host, *port),
        }
    }

    /// `imaps://host:port (TLS)` or `imap://host:port (insecure)`.
    pub fn to_string(&self) -> (s: String)
        ensures
            s@ == self.spec_display(),
    {
        match self {
            Connect::Tls { host, port } => endpoint_url_string("imaps", host, *port, "TLS"),
            Connect::Insecure { host, port } => endpoint_url_string("imap", host, *port, "insecure"),
        }
    }
}

} // verus!
