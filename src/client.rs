use vstd::prelude::*;

use crate::topology::{reply_is_router, IsMasterCommandResponse};
use crate::version::{
    before_dash, begins_with_version, parse_server_version, version_text, semver_at_least, triple_ge, ServerVersion,
    VersionError,
};

verus! {

/// What the harness's connection configuration says of the deployment.
#[derive(Clone, Debug, Default)]
pub struct ClientOptions {
    pub hosts: Vec<String>,
    pub repl_set_name: Option<String>,
    /// A credential was configured.
    pub has_credential: bool,
}

impl ClientOptions {
    /// Fills what `self` leaves unset from `defaults`: the replica-set name
    /// where none is given, the credential where none is configured. The
    /// hosts are those of `self`.
    pub fn merge(&mut self, defaults: ClientOptions)
        ensures
            final(self).hosts == old(self).hosts,
            final(self).repl_set_name == if old(self).repl_set_name is Some {
                old(self).repl_set_name
            } else {
                defaults.repl_set_name
            },
            final(self).has_credential == (old(self).has_credential || defaults.has_credential),
    {
        if self.repl_set_name.is_none() {
            self.repl_set_name = defaults.repl_set_name;
        }
        if !self.has_credential {
            self.has_credential = defaults.has_credential;
        }
    }
}

/// Facts of a connected server, gathered once by the handshake and fixed
/// for the client's lifetime.
#[derive(Clone, Debug)]
pub struct TestClient {
    pub options: ClientOptions,
    pub server_info: IsMasterCommandResponse,
    pub server_version: ServerVersion,
}

/// `(major, minor)` of `v` compared with `(major, minor)` given: -1, 0 or 1.
pub open spec fn minor_cmp(v: ServerVersion, major: u64, minor: u64) -> int {
    if v.major < major || (v.major == major && v.minor < minor) {
        -1
    } else if v.major == major && v.minor == minor {
        0
    } else {
        1
    }
}

impl TestClient {
    /// Options for a client that may talk to several routers: with
    /// `use_multiple_mongoses` unset against a sharded deployment, only the
    /// first host is kept.
    pub fn with_additional_options(
        options: ClientOptions,
        use_multiple_mongoses: bool,
        deployment_sharded: bool,
    ) -> (r: ClientOptions)
        ensures
            r.repl_set_name == options.repl_set_name,
            r.has_credential == options.has_credential,
            r.hosts@ == if !use_multiple_mongoses && deployment_sharded {
                options.hosts@.take(if options.hosts@.len() > 0 { 1int } else { 0int })
            } else {
                options.hosts@
            },
    {
        let mut options = options;
        if !use_multiple_mongoses && deployment_sharded {
            options.hosts.truncate(1);
        }
        options
    }

    pub open spec fn sharded(&self) -> bool {
        reply_is_router(self.server_info)
    }

    pub open spec fn replica_set(&self) -> bool {
        self.options.repl_set_name is Some
    }

    pub open spec fn version_cmp(&self, major: u64, minor: u64) -> int {
        minor_cmp(self.server_version, major, minor)
    }

    /// The server accepts fail points: from 4.1.5 behind a routing layer,
    /// from 4.0 otherwise.
    pub open spec fn fail_points_supported(&self) -> bool {
        if self.sharded() {
            triple_ge(self.server_version, 4, 1, 5)
        } else {
            triple_ge(self.server_version, 4, 0, 0)
        }
    }

    /// Builds the client from the two handshake replies: the topology reply
    /// and the build-information version string.
    pub fn from_handshake(
        options: ClientOptions,
        server_info: IsMasterCommandResponse,
        build_version: &str,
    ) -> (r: Result<TestClient, VersionError>)
        ensures
            forall|v: ServerVersion| #[trigger] version_text(v) == before_dash(build_version@) ==> (r is Ok
                && r->Ok_0.server_version == v),
            r matches Ok(c) ==> c.options == options && c.server_info == server_info
                && begins_with_version(before_dash(build_version@), c.server_version),
            before_dash(build_version@).len() == 0 ==> r is Err,
    {
        match parse_server_version(build_version) {
            Ok(server_version) => Ok(TestClient { options, server_info, server_version }),
            Err(e) => Err(e),
        }
    }

    pub fn auth_enabled(&self) -> (r: bool)
        ensures
            r == self.options.has_credential,
    {
        self.options.has_credential
    }

    pub fn is_replica_set(&self) -> (r: bool)
        ensures
            r == self.replica_set(),
    {
        self.options.repl_set_name.is_some()
    }

    pub fn is_sharded(&self) -> (r: bool)
        ensures
            r == self.sharded(),
    {
        self.server_info.from_router()
    }

    pub fn is_standalone(&self) -> (r: bool)
        ensures
            r == (!self.replica_set() && !self.sharded()),
    {
        !self.is_replica_set() && !self.is_sharded()
    }

    pub fn server_version_eq(&self, major: u64, minor: u64) -> (r: bool)
        ensures
            r == (self.version_cmp(major, minor) == 0),
            r == (self.server_version.major == major && self.server_version.minor == minor),
    {
        self.server_version.major == major && self.server_version.minor == minor
    }

    pub fn server_version_gt(&self, major: u64, minor: u64) -> (r: bool)
        ensures
            r == (self.version_cmp(major, minor) > 0),
    {
        self.server_version.major > major || (self.server_version.major == major
            && self.server_version.minor > minor)
    }

    pub fn server_version_gte(&self, major: u64, minor: u64) -> (r: bool)
        ensures
            r == (self.version_cmp(major, minor) >= 0),
    {
        self.server_version.major > major || (self.server_version.major == major
            && self.server_version.minor >= minor)
    }

    pub fn server_version_lt(&self, major: u64, minor: u64) -> (r: bool)
        ensures
            r == (self.version_cmp(major, minor) < 0),
    {
        self.server_version.major < major || (self.server_version.major == major
            && self.server_version.minor < minor)
    }

    pub fn server_version_lte(&self, major: u64, minor: u64) -> (r: bool)
        ensures
            r == (self.version_cmp(major, minor) <= 0),
    {
        self.server_version.major < major || (self.server_version.major == major
            && self.server_version.minor <= minor)
    }

    /// Whether fail points may be used against this server.
    pub fn supports_fail_command(&self) -> (r: bool)
        ensures
            r == self.fail_points_supported(),
    {
        if self.is_sharded() {
            semver_at_least(&self.server_version, 4, 1, Some(5))
        } else {
            semver_at_least(&self.server_version, 4, 0, None)
        }
    }
}

/// For any client and any `(major, minor)`, exactly one of "at least" and
/// "below" holds.
pub proof fn lemma_gte_lt_partition(c: TestClient, major: u64, minor: u64)
    ensures
        (c.version_cmp(major, minor) >= 0) != (c.version_cmp(major, minor) < 0),
{
}

/// Fail points are never supported on a 3.6 server, whatever its topology.
pub proof fn lemma_no_fail_points_below_four(c: TestClient)
    requires
        c.server_version.major == 3,
    ensures
        !c.fail_points_supported(),
{
}

} // verus!
