//! Settings of the connection pool, the rules the pool applies to a
//! connection, and the pool's observable status.

use vstd::prelude::*;

verus! {

/// Settings of the connection pool. A setting left unset takes its default.
#[derive(Clone, Copy, Debug, PartialEq, Eq, Structural)]
pub struct PoolConfig {
    /// Maximum number of connections in the pool (default: 10)
    pub max_size: Option<usize>,
    /// Seconds to wait for a connection from the pool (default: 30)
    pub wait_timeout_secs: Option<u64>,
    /// Seconds allowed for creating a connection (default: 10)
    pub create_timeout_secs: Option<u64>,
    /// Seconds allowed for validating a connection on checkout (default: 5)
    pub recycle_timeout_secs: Option<u64>,
    /// Seconds a connection may live before it is replaced (default: 900)
    pub max_lifetime_secs: Option<u64>,
}

pub const DEFAULT_MAX_SIZE: usize = 10;

pub const DEFAULT_WAIT_TIMEOUT_SECS: u64 = 30;

pub const DEFAULT_CREATE_TIMEOUT_SECS: u64 = 10;

pub const DEFAULT_RECYCLE_TIMEOUT_SECS: u64 = 5;

pub const DEFAULT_MAX_LIFETIME_SECS: u64 = 900;

/// The settings a pool is built with, every default filled in.
#[derive(Clone, Copy, Debug, PartialEq, Eq, Structural)]
pub struct PoolSettings {
    pub max_size: usize,
    pub wait_timeout_secs: u64,
    pub create_timeout_secs: u64,
    pub recycle_timeout_secs: u64,
    pub max_lifetime_secs: u64,
}

impl Default for PoolConfig {
    fn default() -> (r: PoolConfig)
        ensures
            r == PoolConfig::unset(),
    {
        PoolConfig {
            max_size: None,
            wait_timeout_secs: None,
            create_timeout_secs: None,
            recycle_timeout_secs: None,
            max_lifetime_secs: None,
        }
    }
}

impl PoolConfig {
    /// The configuration with nothing set.
    pub open spec fn unset() -> PoolConfig {
        PoolConfig {
            max_size: None,
            wait_timeout_secs: None,
            create_timeout_secs: None,
            recycle_timeout_secs: None,
            max_lifetime_secs: None,
        }
    }

    /// The settings this configuration stands for.
    pub open spec fn spec_settings(self) -> PoolSettings {
        PoolSettings {
            max_size: match self.max_size {
                Some(v) => v,
                None => DEFAULT_MAX_SIZE,
            },
            wait_timeout_secs: match self.wait_timeout_secs {
                Some(v) => v,
                None => DEFAULT_WAIT_TIMEOUT_SECS,
            },
            create_timeout_secs: match self.create_timeout_secs {
                Some(v) => v,
                None => DEFAULT_CREATE_TIMEOUT_SECS,
            },
            recycle_timeout_secs: match self.recycle_timeout_secs {
                Some(v) => v,
                None => DEFAULT_RECYCLE_TIMEOUT_SECS,
            },
            max_lifetime_secs: match self.max_lifetime_secs {
                Some(v) => v,
                None => DEFAULT_MAX_LIFETIME_SECS,
            },
        }
    }

    /// A configuration with nothing set.
    pub fn new() -> (r: PoolConfig)
        ensures
            r == PoolConfig::unset(),
    {
        PoolConfig {
            max_size: None,
            wait_timeout_secs: None,
            create_timeout_secs: None,
            recycle_timeout_secs: None,
            max_lifetime_secs: None,
        }
    }

    /// A configuration for a pool of at most `size` connections and nothing else set.
    pub fn sized(size: Option<usize>) -> (r: PoolConfig)
        ensures
            r == (PoolConfig { max_size: size, ..PoolConfig::unset() }),
    {
        PoolConfig {
            max_size: size,
            wait_timeout_secs: None,
            create_timeout_secs: None,
            recycle_timeout_secs: None,
            max_lifetime_secs: None,
        }
    }

    pub fn with_max_size(self, size: usize) -> (r: PoolConfig)
        ensures
            r == (PoolConfig { max_size: Some(size), ..self }),
    {
        let mut config = self;
        config.max_size = Some(size);
        config
    }

    pub fn with_wait_timeout(self, secs: u64) -> (r: PoolConfig)
        ensures
            r == (PoolConfig { wait_timeout_secs: Some(secs), ..self }),
    {
        let mut config = self;
        config.wait_timeout_secs = Some(secs);
        config
    }

    pub fn with_create_timeout(self, secs: u64) -> (r: PoolConfig)
        ensures
            r == (PoolConfig { create_timeout_secs: Some(secs), ..self }),
    {
        let mut config = self;
        config.create_timeout_secs = Some(secs);
        config
    }

    pub fn with_recycle_timeout(self, secs: u64) -> (r: PoolConfig)
        ensures
            r == (PoolConfig { recycle_timeout_secs: Some(secs), ..self }),
    {
        let mut config = self;
        config.recycle_timeout_secs = Some(secs);
        config
    }

    pub fn with_max_lifetime(self, secs: u64) -> (r: PoolConfig)
        ensures
            r == (PoolConfig { max_lifetime_secs: Some(secs), ..self }),
    {
        let mut config = self;
        config.max_lifetime_secs = Some(secs);
        config
    }

    /// The settings to build the pool with: each value as set, or its default.
    pub fn settings(&self) -> (r: PoolSettings)
        ensures
            r == self.spec_settings(),
    {
        PoolSettings {
            max_size: match self.max_size {
                Some(v) => v,
                None => DEFAULT_MAX_SIZE,
            },
            wait_timeout_secs: match self.wait_timeout_secs {
                Some(v) => v,
                None => DEFAULT_WAIT_TIMEOUT_SECS,
            },
            create_timeout_secs: match self.create_timeout_secs {
                Some(v) => v,
                None => DEFAULT_CREATE_TIMEOUT_SECS,
            },
            recycle_timeout_secs: match self.recycle_timeout_secs {
                Some(v) => v,
                None => DEFAULT_RECYCLE_TIMEOUT_SECS,
            },
            max_lifetime_secs: match self.max_lifetime_secs {
                Some(v) => v,
                None => DEFAULT_MAX_LIFETIME_SECS,
            },
        }
    }
}

/// Whether a connection of the given age, in whole seconds and the nanoseconds
/// beyond them, has outlived `max_lifetime_secs`.
pub open spec fn outlived(age_secs: u64, age_subsec_nanos: u32, max_lifetime_secs: u64) -> bool {
    age_secs > max_lifetime_secs || (age_secs == max_lifetime_secs && age_subsec_nanos > 0)
}

/// What the pool does with a connection that is about to be reused.
#[derive(Clone, Copy, Debug, PartialEq, Eq, Structural)]
pub enum RecycleDecision {
    /// The connection may be validated and handed out.
    Keep,
    /// The connection is too old: the pool drops it and opens a new one.
    Reject,
}

/// Decides, before a connection is reused, whether it is still young enough.
pub fn pre_recycle(age_secs: u64, age_subsec_nanos: u32, max_lifetime_secs: u64) -> (r:
    RecycleDecision)
    ensures
        r == if outlived(age_secs, age_subsec_nanos, max_lifetime_secs) {
            RecycleDecision::Reject
        } else {
            RecycleDecision::Keep
        },
{
    if age_secs > max_lifetime_secs || (age_secs == max_lifetime_secs && age_subsec_nanos > 0) {
        RecycleDecision::Reject
    } else {
        RecycleDecision::Keep
    }
}

/// The kind of a host that a connection string resolves to.
#[derive(Clone, Copy, Debug, PartialEq, Eq, Structural)]
pub enum HostKind {
    Tcp,
    Unix,
}

/// Whether connections are made over TLS: only where TLS is configured and at
/// least one host is reached over TCP.
pub fn use_tls(tls_configured: bool, hosts: &Vec<HostKind>) -> (r: bool)
    ensures
        r == (tls_configured && hosts@.contains(HostKind::Tcp)),
{
    if !tls_configured {
        return false;
    }
    let mut i: usize = 0;
    while i < hosts.len()
        invariant
            tls_configured,
            i <= hosts.len(),
            forall|j: int| 0 <= j < i ==> hosts[j] != HostKind::Tcp,
        decreases hosts.len() - i,
    {
        if hosts[i] == HostKind::Tcp {
            assert(hosts@[i as int] == HostKind::Tcp);
            return true;
        }
        i += 1;
    }
    false
}

/// A snapshot of the pool: never more idle connections than connections, never
/// more connections than the pool allows.
#[derive(Clone, Copy, Debug, PartialEq, Eq)]
pub struct PoolStatus {
    max_size: usize,
    size: usize,
    available: usize,
    waiting: usize,
}

impl PoolStatus {
    #[verifier::type_invariant]
    pub closed spec fn consistent(self) -> bool {
        self.available <= self.size <= self.max_size
    }

    pub closed spec fn spec_max_size(self) -> usize {
        self.max_size
    }

    pub closed spec fn spec_size(self) -> usize {
        self.size
    }

    pub closed spec fn spec_available(self) -> usize {
        self.available
    }

    pub closed spec fn spec_waiting(self) -> usize {
        self.waiting
    }

    /// The status with the given counts, where they are consistent with one another.
    pub fn new(max_size: usize, size: usize, available: usize, waiting: usize) -> (r: Option<
        PoolStatus,
    >)
        ensures
            r is Some <==> available <= size <= max_size,
            r is Some ==> r.unwrap().spec_max_size() == max_size && r.unwrap().spec_size() == size
                && r.unwrap().spec_available() == available && r.unwrap().spec_waiting()
                == waiting,
    {
        if available <= size && size <= max_size {
            Some(PoolStatus { max_size, size, available, waiting })
        } else {
            None
        }
    }

    /// Maximum number of connections in the pool.
    pub fn max_size(&self) -> (r: usize)
        ensures
            r == self.spec_max_size(),
            r >= self.spec_size(),
    {
        proof {
            use_type_invariant(self);
        }
        self.max_size
    }

    /// Current number of connections in the pool, idle and in use.
    pub fn size(&self) -> (r: usize)
        ensures
            r == self.spec_size(),
            self.spec_available() <= r <= self.spec_max_size(),
    {
        proof {
            use_type_invariant(self);
        }
        self.size
    }

    /// Number of idle connections ready for use.
    pub fn available(&self) -> (r: usize)
        ensures
            r == self.spec_available(),
            r <= self.spec_size(),
    {
        proof {
            use_type_invariant(self);
        }
        self.available
    }

    /// Number of tasks waiting for a connection.
    pub fn waiting(&self) -> (r: usize)
        ensures
            r == self.spec_waiting(),
            r >= 0,
    {
        self.waiting
    }

    /// Number of connections in use.
    pub fn in_use(&self) -> (r: usize)
        ensures
            r == self.spec_size() - self.spec_available(),
    {
        proof {
            use_type_invariant(self);
        }
        self.size - self.available
    }
}

} // verus!
