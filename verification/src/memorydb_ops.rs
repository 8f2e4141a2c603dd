//! Record views and request validation for the cache-cluster control plane.
//! Wire responses arrive as plain values with every field optional; the
//! functions here project them into the `MemDbClusterInfo` / `MemDBUser`
//! views, validate user-create input, and never fail on an absent field.

use crate::text::dec_digits_signed;
use crate::text::i32_to_dec_string;
use crate::text::seq_views;
use crate::text::split_whitespace_strings;
use crate::text::split_ws;
use crate::text::str_eq;
use vstd::prelude::*;
use vstd::string::StringExecFns;

verus! {

/// The authentication kinds the user-create operation accepts.
#[derive(Clone, Copy, Debug, PartialEq, Eq, Structural)]
pub enum AuthKind {
    Iam,
    Password,
}

/// The exact spellings accepted as an authentication type.
pub open spec fn valid_auth_type(s: Seq<char>) -> bool {
    s == "iam"@ || s == "Iam"@ || s == "password"@ || s == "Password"@
}

/// The rejected authentication-type string, kept for the diagnostic.
#[derive(Debug)]
pub struct AuthTypeError {
    pub given: String,
}

impl AuthTypeError {
    /// The diagnostic line for a rejected authentication type.
    pub fn message(&self) -> (m: String)
        ensures
            m@ == "Wrong authentication types: "@ + self.given@,
    {
        let mut m = String::from_str("Wrong authentication types: ");
        m.append(self.given.as_str());
        m
    }
}

/// Maps an authentication-type string to its kind; anything outside the
/// accepted set is rejected without further work.
pub fn parse_auth_type(s: &str) -> (r: Result<AuthKind, AuthTypeError>)
    ensures
        r is Ok <==> valid_auth_type(s@),
        s@ == "iam"@ || s@ == "Iam"@ ==> r == Ok::<AuthKind, AuthTypeError>(AuthKind::Iam),
        s@ == "password"@ || s@ == "Password"@ ==> r == Ok::<AuthKind, AuthTypeError>(
            AuthKind::Password,
        ),
        r matches Err(e) ==> e.given@ == s@,
{
    proof {
        reveal_strlit("iam");
        reveal_strlit("Iam");
        reveal_strlit("password");
        reveal_strlit("Password");
        assert("iam"@.len() == 3 && "Iam"@.len() == 3);
        assert("password"@.len() == 8 && "Password"@.len() == 8);
        assert("iam"@[0] == 'i' && "Iam"@[0] == 'I');
        assert("password"@[0] == 'p' && "Password"@[0] == 'P');
    }
    if str_eq(s, "iam") || str_eq(s, "Iam") {
        Ok(AuthKind::Iam)
    } else if str_eq(s, "password") || str_eq(s, "Password") {
        Ok(AuthKind::Password)
    } else {
        Err(AuthTypeError { given: String::from_str(s) })
    }
}

/// Validates the authentication type and splits the white-space-delimited
/// password list; rejected types fail here, before any request is issued.
pub fn prepare_user_auth(authenticate_type: &str, authenticate_passwords: &str) -> (r: Result<
    (AuthKind, Vec<String>),
    AuthTypeError,
>)
    ensures
        r is Ok <==> valid_auth_type(authenticate_type@),
        r matches Ok(p) ==> seq_views(p.1@) == split_ws(authenticate_passwords@),
        authenticate_type@ == "iam"@ || authenticate_type@ == "Iam"@ ==> (r matches Ok(p)
            && p.0 == AuthKind::Iam),
        authenticate_type@ == "password"@ || authenticate_type@ == "Password"@ ==> (r matches Ok(p)
            && p.0 == AuthKind::Password),
        r matches Err(e) ==> e.given@ == authenticate_type@,
{
    match parse_auth_type(authenticate_type) {
        Ok(kind) => {
            let passwords = split_whitespace_strings(authenticate_passwords);
            Ok((kind, passwords))
        },
        Err(e) => Err(e),
    }
}

/// The authentication descriptor of a reported user.
#[derive(Debug)]
pub struct AuthInfo {
    pub auth_type: Option<String>,
    pub password_count: Option<i32>,
}

/// The projected view of one reported user; every field may be absent.
#[derive(Debug)]
pub struct MemDBUser {
    pub user_name: Option<String>,
    pub status: Option<String>,
    pub access_string: Option<String>,
    pub authentication: Option<AuthInfo>,
}

impl MemDBUser {
    /// Packs the reported fields into a user view.
    pub fn build_memdbuser_info(
        user_name: Option<String>,
        status: Option<String>,
        access_string: Option<String>,
        authentication: Option<AuthInfo>,
    ) -> (r: MemDBUser)
        ensures
            r.user_name == user_name,
            r.status == status,
            r.access_string == access_string,
            r.authentication == authentication,
    {
        MemDBUser { user_name, status, access_string, authentication }
    }

    pub fn get_username(&self) -> (r: Option<&str>)
        ensures
            (match r {
                Some(v) => self.user_name matches Some(u) && v@ == u@,
                None => self.user_name is None,
            }),
    {
        match &self.user_name {
            Some(s) => Some(s.as_str()),
            None => None,
        }
    }

    pub fn get_acess_string(&self) -> (r: Option<&str>)
        ensures
            (match r {
                Some(v) => self.access_string matches Some(u) && v@ == u@,
                None => self.access_string is None,
            }),
    {
        match &self.access_string {
            Some(s) => Some(s.as_str()),
            None => None,
        }
    }

    pub fn get_status(&self) -> (r: Option<&str>)
        ensures
            (match r {
                Some(v) => self.status matches Some(u) && v@ == u@,
                None => self.status is None,
            }),
    {
        match &self.status {
            Some(s) => Some(s.as_str()),
            None => None,
        }
    }
}

/// Truncates a reported user list to its first entry: the describe-user
/// operation hands back at most one record however many the provider matched.
pub fn describe_memdb_user_projection(users: Option<Vec<MemDBUser>>) -> (r: Vec<MemDBUser>)
    ensures
        r@.len() <= 1,
        (match users {
            Some(v) => {
                if v@.len() > 0 {
                    r@ == seq![v@[0]]
                } else {
                    r@ == Seq::<MemDBUser>::empty()
                }
            },
            None => r@ == Seq::<MemDBUser>::empty(),
        }),
{
    match users {
        Some(mut v) => {
            if v.len() > 0 {
                let ghost vs = v@;
                let first = v.remove(0);
                let mut r: Vec<MemDBUser> = Vec::new();
                r.push(first);
                proof {
                    assert(r@ =~= seq![vs[0]]);
                }
                r
            } else {
                Vec::new()
            }
        },
        None => Vec::new(),
    }
}

/// A reported cluster endpoint: an optional host and a port.
#[derive(Debug)]
pub struct Endpoint {
    pub address: Option<String>,
    pub port: i32,
}

/// One cluster record as the describe operation reports it.
#[derive(Debug)]
pub struct ClusterRecord {
    pub cluster_end_point: Option<Endpoint>,
    pub acl_name: Option<String>,
    pub status: Option<String>,
    pub engine_version: Option<String>,
}

/// The projected view of one reported cluster; every field may be absent.
#[derive(Debug)]
pub struct MemDbClusterInfo {
    pub cluster_end_point: Option<Endpoint>,
    pub acl_name: Option<String>,
    pub status: Option<String>,
    pub redis_engine_version: Option<String>,
}

/// The cluster view carrying exactly the fields of the wire record.
pub open spec fn cluster_info_of(c: ClusterRecord) -> MemDbClusterInfo {
    MemDbClusterInfo {
        cluster_end_point: c.cluster_end_point,
        acl_name: c.acl_name,
        status: c.status,
        redis_engine_version: c.engine_version,
    }
}

impl MemDbClusterInfo {
    /// Packs the reported fields into a cluster view.
    pub fn build_memdbclusterinfo(
        cluster_end_point: Option<Endpoint>,
        acl_name: Option<String>,
        status: Option<String>,
        redis_engine_version: Option<String>,
    ) -> (r: MemDbClusterInfo)
        ensures
            r.cluster_end_point == cluster_end_point,
            r.acl_name == acl_name,
            r.status == status,
            r.redis_engine_version == redis_engine_version,
    {
        MemDbClusterInfo { cluster_end_point, acl_name, status, redis_engine_version }
    }

    pub fn get_status(&self) -> (r: Option<String>)
        ensures
            r == self.status,
    {
        match &self.status {
            Some(s) => Some(s.clone()),
            None => None,
        }
    }

    pub fn get_port(&self) -> (r: Option<i32>)
        ensures
            r == (match self.cluster_end_point {
                Some(e) => Some(e.port),
                None => None::<i32>,
            }),
    {
        match &self.cluster_end_point {
            Some(e) => Some(e.port),
            None => None,
        }
    }

    /// The connection URL this view denotes: host, ':', then the port in
    /// decimal; absent while either the endpoint or its host is absent.
    pub open spec fn connection_url(self) -> Option<Seq<char>> {
        match self.cluster_end_point {
            Some(e) => match e.address {
                Some(a) => Some(a@ + seq![':'] + dec_digits_signed(e.port as int)),
                None => None,
            },
            None => None,
        }
    }

    pub fn get_endpoint_with_port(&self) -> (r: Option<String>)
        ensures
            (match r {
                Some(u) => self.connection_url() == Some(u@),
                None => self.connection_url() is None,
            }),
    {
        match &self.cluster_end_point {
            Some(e) => match &e.address {
                Some(a) => {
                    let mut url = a.clone();
                    url.append(":");
                    let port_str = i32_to_dec_string(e.port);
                    url.append(port_str.as_str());
                    proof {
                        reveal_strlit(":");
                        assert(url@ =~= a@ + seq![':'] + dec_digits_signed(e.port as int));
                    }
                    Some(url)
                },
                None => None,
            },
            None => None,
        }
    }

    pub fn get_acl_name(&self) -> (r: Option<String>)
        ensures
            r == self.acl_name,
    {
        match &self.acl_name {
            Some(s) => Some(s.clone()),
            None => None,
        }
    }

    pub fn get_redis_version(&self) -> (r: Option<&str>)
        ensures
            (match r {
                Some(v) => self.redis_engine_version matches Some(u) && v@ == u@,
                None => self.redis_engine_version is None,
            }),
    {
        match &self.redis_engine_version {
            Some(s) => Some(s.as_str()),
            None => None,
        }
    }
}

/// Projects every reported cluster record, in order; an absent list yields
/// the empty sequence rather than a failure.
pub fn describe_memdb_cluster_projection(clusters: Option<Vec<ClusterRecord>>) -> (r: Vec<
    MemDbClusterInfo,
>)
    ensures
        (match clusters {
            Some(v) => r@ == v@.map_values(|c: ClusterRecord| cluster_info_of(c)),
            None => r@ == Seq::<MemDbClusterInfo>::empty(),
        }),
{
    let mut r: Vec<MemDbClusterInfo> = Vec::new();
    match clusters {
        Some(mut v) => {
            let ghost vs = v@;
            while v.len() > 0
                invariant
                    vs.len() == r@.len() + v@.len(),
                    v@ == vs.skip(r@.len() as int),
                    r@ == vs.take(r@.len() as int).map_values(
                        |c: ClusterRecord| cluster_info_of(c),
                    ),
                decreases v@.len(),
            {
                let ghost done = r@.len() as int;
                let c = v.remove(0);
                let info = MemDbClusterInfo {
                    cluster_end_point: c.cluster_end_point,
                    acl_name: c.acl_name,
                    status: c.status,
                    redis_engine_version: c.engine_version,
                };
                r.push(info);
                proof {
                    assert(vs.skip(done)[0] == vs[done]);
                    assert(v@ =~= vs.skip(done + 1));
                    assert(r@ =~= vs.take(done + 1).map_values(
                        |c: ClusterRecord| cluster_info_of(c),
                    ));
                }
            }
            proof {
                assert(vs.take(r@.len() as int) =~= vs);
            }
            r
        },
        None => r,
    }
}

/// Flattens an optional snapshot list: absent means none were reported.
#[derive(Debug)]
pub struct SnapshotRecord {
    pub name: Option<String>,
    pub status: Option<String>,
}

pub fn describe_snapshots_projection(snapshots: Option<Vec<SnapshotRecord>>) -> (r: Vec<
    SnapshotRecord,
>)
    ensures
        (match snapshots {
            Some(v) => r@ == v@,
            None => r@ == Seq::<SnapshotRecord>::empty(),
        }),
{
    match snapshots {
        Some(v) => v,
        None => Vec::new(),
    }
}

/// The lifecycle status inside an optional cluster record, if any.
pub fn extract_cluster_status(cluster: Option<ClusterRecord>) -> (r: Option<String>)
    ensures
        r == (match cluster {
            Some(c) => c.status,
            None => None::<String>,
        }),
{
    match cluster {
        Some(c) => c.status,
        None => None,
    }
}

/// The name and status of a deleted user, reported only when both are present.
pub fn extract_user_identity(user: Option<MemDBUser>) -> (r: Option<(String, String)>)
    ensures
        (match user {
            Some(u) => r == (match (u.user_name, u.status) {
                (Some(n), Some(s)) => Some((n, s)),
                _ => None::<(String, String)>,
            }),
            None => r is None,
        }),
{
    match user {
        Some(u) => match (u.user_name, u.status) {
            (Some(n), Some(s)) => Some((n, s)),
            _ => None,
        },
        None => None,
    }
}

/// Projecting a cluster record with every optional field present keeps each
/// field, and the connection URL is the host joined to the decimal port.
pub proof fn lemma_cluster_round_trip_present(addr: String, port: i32, acl: String, st: String, ver: String)
    ensures
        ({
            let c = cluster_info_of(
                ClusterRecord {
                    cluster_end_point: Some(Endpoint { address: Some(addr), port }),
                    acl_name: Some(acl),
                    status: Some(st),
                    engine_version: Some(ver),
                },
            );
            c.status == Some(st) && c.acl_name == Some(acl) && c.redis_engine_version == Some(ver)
                && c.cluster_end_point == Some(Endpoint { address: Some(addr), port })
                && c.connection_url() == Some(addr@ + seq![':'] + dec_digits_signed(port as int))
        }),
{
}

/// Projecting a cluster record with every field absent reports every field,
/// and the connection URL, as absent; nothing fails.
pub proof fn lemma_cluster_round_trip_absent()
    ensures
        ({
            let c = cluster_info_of(
                ClusterRecord {
                    cluster_end_point: None,
                    acl_name: None,
                    status: None,
                    engine_version: None,
                },
            );
            c.status is None && c.acl_name is None && c.redis_engine_version is None
                && c.cluster_end_point is None && c.connection_url() is None
        }),
{
}

} // verus!
