use cloud_ops::memorydb_ops::describe_memdb_cluster_projection;
use cloud_ops::memorydb_ops::describe_memdb_user_projection;
use cloud_ops::memorydb_ops::describe_snapshots_projection;
use cloud_ops::memorydb_ops::extract_cluster_status;
use cloud_ops::memorydb_ops::extract_user_identity;
use cloud_ops::memorydb_ops::parse_auth_type;
use cloud_ops::memorydb_ops::prepare_user_auth;
use cloud_ops::memorydb_ops::AuthInfo;
use cloud_ops::memorydb_ops::AuthKind;
use cloud_ops::memorydb_ops::ClusterRecord;
use cloud_ops::memorydb_ops::Endpoint;
use cloud_ops::memorydb_ops::MemDBUser;
use cloud_ops::memorydb_ops::MemDbClusterInfo;
use cloud_ops::memorydb_ops::SnapshotRecord;
use cloud_ops::text::split_whitespace_strings;

fn cluster_record(
    address: Option<&str>,
    port: i32,
    acl: Option<&str>,
    status: Option<&str>,
    version: Option<&str>,
) -> ClusterRecord {
    ClusterRecord {
        cluster_end_point: address.map(|a| Endpoint {
            address: Some(a.to_string()),
            port,
        }),
        acl_name: acl.map(|s| s.to_string()),
        status: status.map(|s| s.to_string()),
        engine_version: version.map(|s| s.to_string()),
    }
}

#[test]
fn auth_type_accepts_both_spellings_of_each_kind() {
    assert_eq!(parse_auth_type("iam").unwrap(), AuthKind::Iam);
    assert_eq!(parse_auth_type("Iam").unwrap(), AuthKind::Iam);
    assert_eq!(parse_auth_type("password").unwrap(), AuthKind::Password);
    assert_eq!(parse_auth_type("Password").unwrap(), AuthKind::Password);
}

#[test]
fn auth_type_rejects_anything_else() {
    for bad in ["", "IAM", "token", "passwords", "identity"] {
        let err = parse_auth_type(bad).expect_err("must be rejected");
        assert_eq!(err.given, bad);
    }
    let err = parse_auth_type("oauth").expect_err("must be rejected");
    assert_eq!(err.message(), "Wrong authentication types: oauth");
}

#[test]
fn user_auth_is_rejected_before_any_request_is_built() {
    let r = prepare_user_auth("token", "a b");
    assert!(r.is_err());
    assert_eq!(r.expect_err("rejected").given, "token");
}

#[test]
fn user_auth_splits_the_password_list_on_whitespace() {
    let (kind, passwords) = prepare_user_auth("password", " first\tsecond  third\n").unwrap();
    assert_eq!(kind, AuthKind::Password);
    assert_eq!(passwords, vec!["first", "second", "third"]);
}

#[test]
fn whitespace_split_drops_empty_runs() {
    assert_eq!(split_whitespace_strings(""), Vec::<String>::new());
    assert_eq!(split_whitespace_strings("   \t\n"), Vec::<String>::new());
    assert_eq!(split_whitespace_strings("one"), vec!["one"]);
    assert_eq!(
        split_whitespace_strings(" a  b \u{a0}c "),
        vec!["a", "b", "c"]
    );
}

#[test]
fn describe_user_returns_at_most_one_record() {
    let users = (0..3)
        .map(|i| {
            MemDBUser::build_memdbuser_info(
                Some(format!("user-{i}")),
                Some("active".to_string()),
                None,
                None,
            )
        })
        .collect::<Vec<_>>();
    let projected = describe_memdb_user_projection(Some(users));
    assert_eq!(projected.len(), 1);
    assert_eq!(projected[0].get_username(), Some("user-0"));
}

#[test]
fn describe_user_tolerates_an_empty_or_absent_report() {
    assert_eq!(describe_memdb_user_projection(Some(vec![])).len(), 0);
    assert_eq!(describe_memdb_user_projection(None).len(), 0);
}

#[test]
fn user_accessors_report_their_fields() {
    let user = MemDBUser::build_memdbuser_info(
        Some("u".to_string()),
        Some("modifying".to_string()),
        Some("on ~*".to_string()),
        Some(AuthInfo {
            auth_type: Some("password".to_string()),
            password_count: Some(2),
        }),
    );
    assert_eq!(user.get_username(), Some("u"));
    assert_eq!(user.get_status(), Some("modifying"));
    assert_eq!(user.get_acess_string(), Some("on ~*"));
    let auth = user.authentication.as_ref().expect("authentication");
    assert_eq!(auth.auth_type.as_deref(), Some("password"));
    assert_eq!(auth.password_count, Some(2));
}

#[test]
fn cluster_projection_keeps_every_present_field() {
    let records = vec![cluster_record(
        Some("host.example"),
        6379,
        Some("open-access"),
        Some("available"),
        Some("6.2"),
    )];
    let infos = describe_memdb_cluster_projection(Some(records));
    assert_eq!(infos.len(), 1);
    let info = &infos[0];
    assert_eq!(info.get_status(), Some("available".to_string()));
    assert_eq!(info.get_port(), Some(6379));
    assert_eq!(info.get_acl_name(), Some("open-access".to_string()));
    assert_eq!(info.get_redis_version(), Some("6.2"));
    assert_eq!(
        info.get_endpoint_with_port(),
        Some("host.example:6379".to_string())
    );
}

#[test]
fn cluster_projection_reports_absent_fields_as_absent() {
    let infos = describe_memdb_cluster_projection(Some(vec![cluster_record(
        None, 0, None, None, None,
    )]));
    assert_eq!(infos.len(), 1);
    let info = &infos[0];
    assert_eq!(info.get_status(), None);
    assert_eq!(info.get_port(), None);
    assert_eq!(info.get_acl_name(), None);
    assert_eq!(info.get_redis_version(), None);
    assert_eq!(info.get_endpoint_with_port(), None);
}

#[test]
fn cluster_projection_of_absent_list_is_empty() {
    assert_eq!(describe_memdb_cluster_projection(None).len(), 0);
}

#[test]
fn endpoint_url_renders_negative_ports_in_decimal() {
    let info = MemDbClusterInfo::build_memdbclusterinfo(
        Some(Endpoint {
            address: Some("h".to_string()),
            port: -1,
        }),
        None,
        None,
        None,
    );
    assert_eq!(info.get_endpoint_with_port(), Some("h:-1".to_string()));
}

#[test]
fn endpoint_url_is_absent_without_a_host() {
    let info = MemDbClusterInfo::build_memdbclusterinfo(
        Some(Endpoint {
            address: None,
            port: 6379,
        }),
        None,
        Some("creating".to_string()),
        None,
    );
    assert_eq!(info.get_endpoint_with_port(), None);
    assert_eq!(info.get_status(), Some("creating".to_string()));
}

#[test]
fn snapshots_projection_flattens_the_optional_list() {
    let snapshots = vec![SnapshotRecord {
        name: Some("snap-1".to_string()),
        status: Some("available".to_string()),
    }];
    let projected = describe_snapshots_projection(Some(snapshots));
    assert_eq!(projected.len(), 1);
    assert_eq!(projected[0].name.as_deref(), Some("snap-1"));
    assert!(describe_snapshots_projection(None).is_empty());
}

#[test]
fn cluster_status_extraction() {
    let with = cluster_record(None, 0, None, Some("deleting"), None);
    assert_eq!(
        extract_cluster_status(Some(with)),
        Some("deleting".to_string())
    );
    let without = cluster_record(None, 0, None, None, None);
    assert_eq!(extract_cluster_status(Some(without)), None);
    assert_eq!(extract_cluster_status(None), None);
}

#[test]
fn deleted_user_identity_needs_both_name_and_status() {
    let complete = MemDBUser::build_memdbuser_info(
        Some("u".to_string()),
        Some("deleting".to_string()),
        None,
        None,
    );
    assert_eq!(
        extract_user_identity(Some(complete)),
        Some(("u".to_string(), "deleting".to_string()))
    );
    let nameless =
        MemDBUser::build_memdbuser_info(None, Some("deleting".to_string()), None, None);
    assert_eq!(extract_user_identity(Some(nameless)), None);
    assert_eq!(extract_user_identity(None), None);
}
