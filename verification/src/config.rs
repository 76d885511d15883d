//! Build-time settings: timing, capacities, and the identity used to join
//! the access point.

use vstd::prelude::*;
use vstd::string::StringSliceAdditionalSpecFns;
use vstd::utf8::encode_utf8;

verus! {

/// How long the button must stay low before a press counts, in milliseconds.
pub const DEBOUNCE_MILLIS: u64 = 100;

/// Pause between two looks at the link while a fetch waits for it, in milliseconds.
pub const LINK_POLL_MILLIS: u64 = 500;

/// Pause after a failed association before the next attempt, in milliseconds.
pub const RETRY_BACKOFF_MILLIS: u64 = 5000;

/// Pause between two reminders, in milliseconds.
pub const HEARTBEAT_MILLIS: u64 = 3000;

/// Sockets in the packet engine's table.
pub const ENGINE_SOCKETS: usize = 3;

/// Connections in the HTTP client's pool.
pub const CLIENT_SOCKETS: usize = 3;

/// Bytes in the buffer that receives a response body.
pub const FETCH_BUFFER_SIZE: usize = 2560;

/// Where the page is fetched from.
pub const TARGET_URL: &'static str = "http://example.com";

/// Longest network name the radio accepts, in bytes.
pub const NAME_LIMIT: usize = 32;

/// Longest secret the radio accepts, in bytes.
pub const SECRET_LIMIT: usize = 64;

/// How the radio authenticates to the access point.
#[derive(Clone, Copy, Debug, PartialEq, Eq, Structural)]
pub enum AuthMode {
    /// No authentication.
    Open,
    /// A pre-shared key.
    PreSharedKey,
}

/// Why a link identity was refused.
#[derive(Clone, Copy, Debug, PartialEq, Eq, Structural)]
pub enum ConfigError {
    /// The network name is longer than [`NAME_LIMIT`] bytes.
    NameTooLong,
    /// The secret is longer than [`SECRET_LIMIT`] bytes.
    SecretTooLong,
}

/// The authentication mode that goes with a secret: open when there is no
/// secret, a pre-shared key otherwise.
pub open spec fn auth_for(secret: Seq<char>) -> AuthMode {
    if secret.len() == 0 {
        AuthMode::Open
    } else {
        AuthMode::PreSharedKey
    }
}

/// What a [`LinkConfig`] holds.
pub ghost struct LinkIdentity {
    pub name: Seq<char>,
    pub secret: Seq<char>,
    pub auth: AuthMode,
}

/// Whether an identity fits the radio's fields and carries the mode that its
/// secret calls for.
pub open spec fn identity_fits(id: LinkIdentity) -> bool {
    &&& encode_utf8(id.name).len() <= NAME_LIMIT
    &&& encode_utf8(id.secret).len() <= SECRET_LIMIT
    &&& id.auth == auth_for(id.secret)
}

/// An identity that fits is open exactly when it has no secret: an empty
/// secret is never used as a key.
pub proof fn lemma_open_iff_no_secret(id: LinkIdentity)
    requires
        identity_fits(id),
    ensures
        id.auth == AuthMode::Open <==> id.secret.len() == 0,
        id.auth == AuthMode::PreSharedKey <==> id.secret.len() > 0,
{
}

/// Network name, secret and authentication mode, fixed once built.
#[derive(Debug, PartialEq, Eq)]
pub struct LinkConfig {
    name: String,
    secret: String,
    auth: AuthMode,
}

impl View for LinkConfig {
    type V = LinkIdentity;

    closed spec fn view(&self) -> LinkIdentity {
        LinkIdentity { name: self.name@, secret: self.secret@, auth: self.auth }
    }
}

impl LinkConfig {
    #[verifier::type_invariant]
    spec fn inv(&self) -> bool {
        identity_fits(self@)
    }

    /// Builds the identity for `name` and `secret`. The name is checked
    /// first; each must fit the radio's field, counted in bytes.
    pub fn new(name: &str, secret: &str) -> (r: Result<LinkConfig, ConfigError>)
        ensures
            match r {
                Ok(c) => {
                    &&& name.spec_bytes().len() <= NAME_LIMIT
                    &&& secret.spec_bytes().len() <= SECRET_LIMIT
                    &&& c@ == (LinkIdentity {
                        name: name@,
                        secret: secret@,
                        auth: auth_for(secret@),
                    })
                },
                Err(ConfigError::NameTooLong) => name.spec_bytes().len() > NAME_LIMIT,
                Err(ConfigError::SecretTooLong) => {
                    &&& name.spec_bytes().len() <= NAME_LIMIT
                    &&& secret.spec_bytes().len() > SECRET_LIMIT
                },
            },
    {
        if name.as_bytes().len() > NAME_LIMIT {
            return Err(ConfigError::NameTooLong);
        }
        if secret.as_bytes().len() > SECRET_LIMIT {
            return Err(ConfigError::SecretTooLong);
        }
        let auth = if secret.is_empty() {
            AuthMode::Open
        } else {
            AuthMode::PreSharedKey
        };
        Ok(LinkConfig { name: name.to_owned(), secret: secret.to_owned(), auth })
    }

    /// The network name.
    pub fn name(&self) -> (r: &str)
        ensures
            r@ == self@.name,
            r.spec_bytes().len() <= NAME_LIMIT,
    {
        proof {
            use_type_invariant(self);
        }
        self.name.as_str()
    }

    /// The secret; empty for an open network.
    pub fn secret(&self) -> (r: &str)
        ensures
            r@ == self@.secret,
            r.spec_bytes().len() <= SECRET_LIMIT,
    {
        proof {
            use_type_invariant(self);
        }
        self.secret.as_str()
    }

    /// The authentication mode: open exactly when the secret is empty.
    pub fn auth_mode(&self) -> (r: AuthMode)
        ensures
            r == self@.auth,
            r == auth_for(self@.secret),
    {
        proof {
            use_type_invariant(self);
        }
        self.auth
    }
}

/// What a [`SocketPools`] holds.
pub ghost struct PoolSizes {
    /// Sockets in the packet engine's table.
    pub engine: usize,
    /// Connections in the HTTP client's pool.
    pub client: usize,
}

/// The two socket capacities of the device. The client's pool is carved out
/// of the engine's table, so it is never the larger of the two.
#[derive(Clone, Copy, Debug, PartialEq, Eq)]
pub struct SocketPools {
    engine: usize,
    client: usize,
}

impl View for SocketPools {
    type V = PoolSizes;

    closed spec fn view(&self) -> PoolSizes {
        PoolSizes { engine: self.engine, client: self.client }
    }
}

impl SocketPools {
    #[verifier::type_invariant]
    spec fn inv(&self) -> bool {
        self.client <= self.engine
    }

    /// Accepts the pair of capacities when the client's pool fits the
    /// engine's table, and refuses it otherwise.
    pub fn new(engine: usize, client: usize) -> (r: Option<SocketPools>)
        ensures
            r is Some <==> client <= engine,
            r matches Some(p) ==> p@ == (PoolSizes { engine, client }),
    {
        if client <= engine {
            Some(SocketPools { engine, client })
        } else {
            None
        }
    }

    /// The capacities the device is built with.
    pub fn standard() -> (p: SocketPools)
        ensures
            p@ == (PoolSizes { engine: ENGINE_SOCKETS, client: CLIENT_SOCKETS }),
    {
        SocketPools { engine: ENGINE_SOCKETS, client: CLIENT_SOCKETS }
    }

    /// Sockets in the packet engine's table.
    pub fn engine(&self) -> (n: usize)
        ensures
            n == self@.engine,
    {
        self.engine
    }

    /// Connections in the HTTP client's pool; never more than the engine has sockets.
    pub fn client(&self) -> (m: usize)
        ensures
            m == self@.client,
            m <= self@.engine,
    {
        proof {
            use_type_invariant(self);
        }
        self.client
    }
}

impl Clone for LinkConfig {
    fn clone(&self) -> (r: LinkConfig)
        ensures
            r@ == self@,
    {
        proof {
            use_type_invariant(self);
        }
        LinkConfig { name: self.name.clone(), secret: self.secret.clone(), auth: self.auth }
    }
}

} // verus!
