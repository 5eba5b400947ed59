//! Configuration of a connection pool of fixed capacity.

use crate::dal::acquire::{AcquireState, AcquireStep, RetryPolicy};
use crate::utils::text::{decimal, decimal_spec};
use vstd::prelude::*;
use vstd::string::StringExecFns;

verus! {

/// How long a statement may run: whole seconds and the nanoseconds beyond
/// them, fewer than a second's worth.
#[derive(Clone, Copy, Debug, PartialEq, Eq, Structural)]
pub struct StatementTimeout {
    secs: u64,
    subsec_nanos: u32,
}

/// Builder for [`ConnectionPool`]s.
///
/// The database URL is potentially sensitive: no text this type produces
/// for logging contains it.
pub struct ConnectionPoolBuilder {
    database_url: String,
    max_size: u32,
    statement_timeout: Option<StatementTimeout>,
}

/// A pool of at most `max_size` connections.
#[derive(Clone, Copy, PartialEq, Eq, Structural)]
pub struct ConnectionPool {
    max_size: u32,
}

/// What to open a pool with.
pub struct ConnectionPlan {
    /// The largest number of connections the pool may hold.
    pub max_connections: u32,
    /// The value of the run-time parameter `statement_timeout` to set on
    /// every connection, if any.
    pub statement_timeout: Option<String>,
    /// The pool as the library knows it.
    pub pool: ConnectionPool,
}

/// The value of the run-time parameter for a timeout of `secs` seconds: the
/// number in decimal, followed by `s`.
pub open spec fn timeout_setting_spec(secs: u64) -> Seq<char> {
    decimal_spec(secs as nat).push('s')
}

/// The text std writes for a duration of `secs` seconds and `subsec_nanos`
/// nanoseconds when it is formatted for debugging.
pub uninterp spec fn duration_debug_text(secs: u64, subsec_nanos: u32) -> Seq<char>;

/// The `Debug` formatting of std's `Duration`: the text for a duration of
/// `secs` seconds and `subsec_nanos` nanoseconds. With a second's worth of
/// nanoseconds or more the seconds could overflow in the making of the
/// duration, so that is excluded.
#[verifier::external_body]
fn duration_debug(secs: u64, subsec_nanos: u32) -> (text: String)
    requires
        subsec_nanos < 1_000_000_000,
    ensures
        text@ == duration_debug_text(secs, subsec_nanos),
{
    format!("{:?}", std::time::Duration::new(secs, subsec_nanos))
}

/// How a statement timeout shows in text for logs: `None`, or `Some(` the
/// duration `)`.
pub open spec fn timeout_debug_spec(timeout: Option<StatementTimeout>) -> Seq<char> {
    match timeout {
        None => "None"@,
        Some(timeout) => "Some("@ + duration_debug_text(
            timeout.secs_spec(),
            timeout.subsec_nanos_spec(),
        ) + ")"@,
    }
}

/// The text of a builder for logs. It is made of the size and the timeout
/// alone.
pub open spec fn builder_debug_spec(max_size: u32, timeout: Option<StatementTimeout>) -> Seq<
    char,
> {
    "ConnectionPoolBuilder { max_size: "@ + decimal_spec(max_size as nat)
        + ", statement_timeout: "@ + timeout_debug_spec(timeout) + " }"@
}

/// The text of a pool for logs.
pub open spec fn pool_debug_spec(max_size: u32) -> Seq<char> {
    "ConnectionPool { max_size: "@ + decimal_spec(max_size as nat) + ", .. }"@
}

/// The value of the run-time parameter for a timeout of `secs` seconds.
pub fn timeout_setting(secs: u64) -> (text: String)
    ensures
        text@ == timeout_setting_spec(secs),
{
    proof {
        reveal_strlit("s");
    }
    let mut text = decimal(secs);
    text.append("s");
    assert(text@ =~= timeout_setting_spec(secs));
    text
}

impl StatementTimeout {
    #[verifier::type_invariant]
    spec fn nanos_below_a_second(self) -> bool {
        self.subsec_nanos < 1_000_000_000
    }

    /// The whole seconds of the timeout.
    pub closed spec fn secs_spec(&self) -> u64 {
        self.secs
    }

    /// The nanoseconds beyond the whole seconds.
    pub closed spec fn subsec_nanos_spec(&self) -> u32 {
        self.subsec_nanos
    }

    /// A timeout of whole seconds.
    pub fn from_secs(secs: u64) -> (timeout: Self)
        ensures
            timeout.secs_spec() == secs,
            timeout.subsec_nanos_spec() == 0,
    {
        StatementTimeout { secs, subsec_nanos: 0 }
    }

    /// A timeout of `secs` seconds and `subsec_nanos` nanoseconds, provided
    /// that the nanoseconds are fewer than a second's worth.
    pub fn new(secs: u64, subsec_nanos: u32) -> (timeout: Option<Self>)
        ensures
            timeout is Some <==> subsec_nanos < 1_000_000_000,
            timeout is Some ==> timeout->0.secs_spec() == secs && timeout->0.subsec_nanos_spec()
                == subsec_nanos,
    {
        if subsec_nanos < 1_000_000_000 {
            Some(StatementTimeout { secs, subsec_nanos })
        } else {
            None
        }
    }

    /// The whole seconds of the timeout: what the database is given.
    pub fn as_secs(&self) -> (secs: u64)
        ensures
            secs == self.secs_spec(),
    {
        self.secs
    }

    /// The nanoseconds beyond the whole seconds.
    pub fn subsec_nanos(&self) -> (nanos: u32)
        ensures
            nanos == self.subsec_nanos_spec(),
            nanos < 1_000_000_000,
    {
        proof {
            use_type_invariant(self);
        }
        self.subsec_nanos
    }

    /// The text of the timeout for logs, as std writes a duration.
    pub fn debug_text(&self) -> (text: String)
        ensures
            text@ == duration_debug_text(self.secs_spec(), self.subsec_nanos_spec()),
    {
        proof {
            use_type_invariant(self);
        }
        duration_debug(self.secs, self.subsec_nanos)
    }
}

impl ConnectionPoolBuilder {
    /// The URL of the database.
    pub closed spec fn database_url_spec(&self) -> Seq<char> {
        self.database_url@
    }

    /// The largest number of connections the pool may hold.
    pub closed spec fn max_size_spec(&self) -> u32 {
        self.max_size
    }

    /// The statement timeout, if one is set.
    pub closed spec fn statement_timeout_spec(&self) -> Option<StatementTimeout> {
        self.statement_timeout
    }

    /// Sets the statement timeout for the pool. With `None` no statement
    /// timeout is set. The builder is handed back for further calls.
    pub fn set_statement_timeout(&mut self, timeout: Option<StatementTimeout>) -> (builder:
        &mut Self)
        ensures
            builder.statement_timeout_spec() == timeout,
            builder.database_url_spec() == old(self).database_url_spec(),
            builder.max_size_spec() == old(self).max_size_spec(),
            *final(self) == *final(builder),
    {
        self.statement_timeout = timeout;
        self
    }

    /// The URL of the database, for the driver and for nothing else.
    pub fn database_url(&self) -> (url: &str)
        ensures
            url@ == self.database_url_spec(),
    {
        self.database_url.as_str()
    }

    /// The largest number of connections the pool may hold.
    pub fn max_size(&self) -> (size: u32)
        ensures
            size == self.max_size_spec(),
    {
        self.max_size
    }

    /// The statement timeout, if one is set.
    pub fn statement_timeout(&self) -> (timeout: Option<StatementTimeout>)
        ensures
            timeout == self.statement_timeout_spec(),
    {
        self.statement_timeout
    }

    /// Works out what to open the pool with: its capacity, and the
    /// statement timeout as the database takes it, in whole seconds; what
    /// the timeout holds beyond them is left out.
    pub fn build(&self) -> (plan: ConnectionPlan)
        ensures
            plan.max_connections == self.max_size_spec(),
            plan.pool.max_size_spec() == self.max_size_spec(),
            match self.statement_timeout_spec() {
                Some(timeout) => plan.statement_timeout is Some && plan.statement_timeout->0@
                    == timeout_setting_spec(timeout.secs_spec()),
                None => plan.statement_timeout is None,
            },
    {
        let statement_timeout = match self.statement_timeout {
            Some(timeout) => Some(timeout_setting(timeout.as_secs())),
            None => None,
        };
        ConnectionPlan {
            max_connections: self.max_size,
            statement_timeout,
            pool: ConnectionPool { max_size: self.max_size },
        }
    }

    /// The text of this builder for logs: its size and timeout, never the
    /// database URL.
    pub fn debug_text(&self) -> (text: String)
        ensures
            text@ == builder_debug_spec(self.max_size_spec(), self.statement_timeout_spec()),
    {
        let mut text = String::from_str("ConnectionPoolBuilder { max_size: ");
        text.append(decimal(self.max_size as u64).as_str());
        text.append(", statement_timeout: ");
        match self.statement_timeout {
            None => {
                text.append("None");
            },
            Some(timeout) => {
                text.append("Some(");
                text.append(timeout.debug_text().as_str());
                text.append(")");
            },
        }
        text.append(" }");
        assert(text@ =~= builder_debug_spec(self.max_size, self.statement_timeout));
        text
    }
}

impl ConnectionPool {
    /// The largest number of connections in this pool, as given when it was
    /// made.
    pub closed spec fn max_size_spec(&self) -> u32 {
        self.max_size
    }

    /// Initializes a builder for connection pools.
    pub fn builder(database_url: &str, max_pool_size: u32) -> (builder: ConnectionPoolBuilder)
        ensures
            builder.database_url_spec() == database_url@,
            builder.max_size_spec() == max_pool_size,
            builder.statement_timeout_spec() is None,
    {
        ConnectionPoolBuilder {
            database_url: String::from_str(database_url),
            max_size: max_pool_size,
            statement_timeout: None,
        }
    }

    /// Initializes a builder for connection pools with a single connection.
    /// This is the same as `Self::builder(database_url, 1)`.
    pub fn singleton(database_url: &str) -> (builder: ConnectionPoolBuilder)
        ensures
            builder.database_url_spec() == database_url@,
            builder.max_size_spec() == 1,
            builder.statement_timeout_spec() is None,
    {
        Self::builder(database_url, 1)
    }

    /// Returns the maximum number of connections in this pool specified
    /// during its creation. This number may be distinct from the current
    /// number of connections in the pool (including idle ones).
    pub fn max_size(&self) -> (size: u32)
        ensures
            size == self.max_size_spec(),
    {
        self.max_size
    }

    /// Begins the acquisition of a connection with the standard policy:
    /// three retries one second apart, then a last attempt. The time the
    /// acquisition takes is recorded under no label of its own.
    pub fn access_storage<C, E>(&self) -> (out: AcquireStep<C, E>)
        ensures
            out == AcquireState::start_spec::<C, E>(
                RetryPolicy::standard(),
                None,
            ),
    {
        AcquireState::start(RetryPolicy::default(), None)
    }

    /// A version of `access_storage` after which the time the acquisition
    /// took is also recorded under the name of the `requester`.
    pub fn access_storage_tagged<C, E>(&self, requester: &'static str) -> (out: AcquireStep<C, E>)
        ensures
            out == AcquireState::start_spec::<C, E>(
                RetryPolicy::standard(),
                Some(requester),
            ),
    {
        AcquireState::start(RetryPolicy::default(), Some(requester))
    }

    /// The text of this pool for logs.
    pub fn debug_text(&self) -> (text: String)
        ensures
            text@ == pool_debug_spec(self.max_size_spec()),
    {
        let mut text = String::from_str("ConnectionPool { max_size: ");
        text.append(decimal(self.max_size as u64).as_str());
        text.append(", .. }");
        assert(text@ =~= pool_debug_spec(self.max_size));
        text
    }
}

} // verus!
