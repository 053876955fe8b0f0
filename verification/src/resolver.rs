//! Endpoint resolution: which transports to try, in which order.
//!
//! The resolver decides the strict order of connection attempts: an
//! explicit endpoint override (when set and well-formed) first, then the
//! platform's default local transport, then a generic HTTP fallback for
//! remote or non-standard daemons. A failing attempt falls through to the
//! next; only the attempts themselves — I/O — live outside this crate.

use vstd::prelude::*;
use vstd::string::StrSliceExecFns;
use vstd::string::StringExecFns;

verus! {

/// One way of reaching the daemon.
#[derive(Clone, Copy, Debug, PartialEq, Eq, Structural)]
pub enum ConnectionMethod {
    /// The named pipe of the platform that uses one.
    NamedPipe,
    /// A local domain socket.
    UnixSocket,
    /// A generic HTTP endpoint.
    Http,
}

/// The platform the agent runs on, as far as the resolver cares.
#[derive(Clone, Copy, Debug, PartialEq, Eq, Structural)]
pub enum Platform {
    /// The platform whose default local transport is a named pipe.
    Windows,
    /// Default local transport is a domain socket.
    Linux,
    /// Default local transport is a domain socket.
    MacOs,
    /// Anything else; also defaults to a domain socket.
    Other,
}

/// Why resolution failed.
#[derive(Clone, Copy, Debug, PartialEq, Eq, Structural)]
pub enum ResolveError {
    /// The endpoint override names a scheme the resolver does not know.
    InvalidEndpointFormat,
    /// Every resolution method failed to produce a connection.
    AllMethodsFailed,
}

/// Whether `p` is a prefix of `s`.
pub open spec fn has_prefix(s: Seq<char>, p: Seq<char>) -> bool {
    p.len() <= s.len() && s.take(p.len() as int) == p
}

/// Computes [`has_prefix`].
fn str_has_prefix(s: &str, p: &str) -> (r: bool)
    ensures
        r == has_prefix(s@, p@),
{
    let sl = s.unicode_len();
    let pl = p.unicode_len();
    if pl > sl {
        return false;
    }
    let mut i: usize = 0;
    while i < pl
        invariant
            i <= pl,
            pl == p@.len(),
            sl == s@.len(),
            pl <= sl,
            forall|k: int| 0 <= k < i ==> s@[k] == p@[k],
        decreases pl - i,
    {
        if s.get_char(i) != p.get_char(i) {
            proof {
                assert(s@.take(p@.len() as int)[i as int] == s@[i as int]);
            }
            return false;
        }
        i += 1;
    }
    proof {
        assert(s@.take(p@.len() as int) =~= p@);
    }
    true
}

/// How an endpoint override maps to a transport, by its scheme: `tcp://`
/// to HTTP, `unix://` to a domain socket, `npipe://` to a named pipe; any
/// other scheme is malformed.
pub open spec fn classify_endpoint_spec(s: Seq<char>) -> Result<ConnectionMethod, ResolveError> {
    if has_prefix(s, "tcp://"@) {
        Ok(ConnectionMethod::Http)
    } else if has_prefix(s, "unix://"@) {
        Ok(ConnectionMethod::UnixSocket)
    } else if has_prefix(s, "npipe://"@) {
        Ok(ConnectionMethod::NamedPipe)
    } else {
        Err(ResolveError::InvalidEndpointFormat)
    }
}

/// Computes [`classify_endpoint_spec`]: the transport named by an endpoint
/// override, or `InvalidEndpointFormat` for a scheme the resolver does not
/// know.
pub fn classify_endpoint(s: &str) -> (r: Result<ConnectionMethod, ResolveError>)
    ensures
        r == classify_endpoint_spec(s@),
{
    if str_has_prefix(s, "tcp://") {
        Ok(ConnectionMethod::Http)
    } else if str_has_prefix(s, "unix://") {
        Ok(ConnectionMethod::UnixSocket)
    } else if str_has_prefix(s, "npipe://") {
        Ok(ConnectionMethod::NamedPipe)
    } else {
        Err(ResolveError::InvalidEndpointFormat)
    }
}

/// The platform's default local transport: the named pipe where the
/// platform uses one, a domain socket everywhere else.
pub open spec fn platform_default_spec(p: Platform) -> ConnectionMethod {
    if p is Windows {
        ConnectionMethod::NamedPipe
    } else {
        ConnectionMethod::UnixSocket
    }
}

/// Computes [`platform_default_spec`].
pub fn platform_default(p: Platform) -> (m: ConnectionMethod)
    ensures
        m == platform_default_spec(p),
{
    match p {
        Platform::Windows => ConnectionMethod::NamedPipe,
        _ => ConnectionMethod::UnixSocket,
    }
}

/// The strict order of connection attempts: the override's transport first
/// when the override is set and well-formed (a malformed override is
/// skipped, surfacing only if its attempt would have been the last hope),
/// then the platform default, then the HTTP fallback.
pub open spec fn connection_attempts_spec(host: Option<Seq<char>>, p: Platform) -> Seq<
    ConnectionMethod,
> {
    let base = seq![platform_default_spec(p), ConnectionMethod::Http];
    match host {
        None => base,
        Some(h) => match classify_endpoint_spec(h) {
            Ok(m) => seq![m] + base,
            Err(_) => base,
        },
    }
}

/// Computes [`connection_attempts_spec`]: the transports to attempt, first
/// success wins, given the endpoint override (if set) and the platform.
pub fn connection_attempts(host: Option<&str>, platform: Platform) -> (r: Vec<ConnectionMethod>)
    ensures
        r@ == connection_attempts_spec(host.deep_view(), platform),
{
    let mut attempts: Vec<ConnectionMethod> = Vec::new();
    match host {
        Some(h) => {
            match classify_endpoint(h) {
                Ok(m) => attempts.push(m),
                Err(_) => (),
            }
        },
        None => (),
    }
    attempts.push(platform_default(platform));
    attempts.push(ConnectionMethod::Http);
    proof {
        assert(attempts@ =~= connection_attempts_spec(host.deep_view(), platform));
    }
    attempts
}

impl ResolveError {
    /// A rendering of this error for logs and observers.
    pub fn message(&self) -> (r: String)
        ensures
            self is InvalidEndpointFormat ==> r@ == "Invalid DOCKER_HOST format"@,
            self is AllMethodsFailed ==> r@
                == "Unable to connect to Docker daemon via any available method"@,
    {
        match self {
            ResolveError::InvalidEndpointFormat => "Invalid DOCKER_HOST format".to_owned(),
            ResolveError::AllMethodsFailed => "Unable to connect to Docker daemon via any available method".to_owned(),
        }
    }
}

/// The message of a malformed endpoint override, carrying the override
/// itself.
pub fn invalid_endpoint_message(host: &str) -> (r: String)
    ensures
        r@ == "Invalid DOCKER_HOST format: "@ + host@,
{
    "Invalid DOCKER_HOST format: ".to_owned().concat(host)
}

} // verus!
