use bson::Bson;
use mongo_test_util::client::{ClientOptions, TestClient};
use mongo_test_util::failpoint::{FailPoint, FailPointGuard, FailPointMode};
use mongo_test_util::handshake::{
    BootstrapError, HandshakeAction, HandshakeCommand, HandshakeEvent, SessionHandshake,
};
use mongo_test_util::fixture::{drop_collection, AuthMechanism};
use mongo_test_util::naming::get_db_name;
use mongo_test_util::outcome::{require_success, CommandOutcome, FixtureError, NAMESPACE_NOT_FOUND, USER_NOT_FOUND};
use mongo_test_util::topology::IsMasterCommandResponse;
use mongo_test_util::version::{parse_server_version, ServerVersion, VersionError};

fn client_with(msg: Option<&str>, major: u64, minor: u64, patch: u64) -> TestClient {
    let mut server_info = IsMasterCommandResponse::default();
    server_info.msg = msg.map(|m| m.to_string());
    TestClient {
        options: ClientOptions::default(),
        server_info,
        server_version: ServerVersion { major, minor, patch },
    }
}

#[test]
fn db_name_replaces_dollar_and_space() {
    assert_eq!(get_db_name("find $in with spaces"), "find_%in_with_spaces");
}

#[test]
fn db_name_is_cut_to_63_bytes() {
    let long = "x".repeat(100);
    let name = get_db_name(&long);
    assert_eq!(name.len(), 63);
    assert_eq!(name, "x".repeat(63));
}

#[test]
fn db_name_short_and_empty() {
    assert_eq!(get_db_name(""), "");
    assert_eq!(get_db_name("plain"), "plain");
}

#[test]
fn db_name_multibyte_on_boundary() {
    // 61 ASCII bytes then a two-byte character end exactly at byte 63.
    let text = format!("{}é tail", "a".repeat(61));
    assert_eq!(get_db_name(&text), format!("{}é", "a".repeat(61)));
}

#[test]
fn version_with_prerelease_suffix() {
    assert_eq!(
        parse_server_version("4.2.1-rc0"),
        Ok(ServerVersion { major: 4, minor: 2, patch: 1 })
    );
}

#[test]
fn version_plain() {
    assert_eq!(
        parse_server_version("5.0.0"),
        Ok(ServerVersion { major: 5, minor: 0, patch: 0 })
    );
}

#[test]
fn version_malformed() {
    assert_eq!(parse_server_version(""), Err(VersionError::Malformed));
    assert_eq!(parse_server_version("-rc1"), Err(VersionError::Malformed));
    assert_eq!(parse_server_version("4.2"), Err(VersionError::Malformed));
    assert_eq!(parse_server_version("four"), Err(VersionError::Malformed));
    assert_eq!(parse_server_version("04.2.1"), Err(VersionError::Malformed));
}

#[test]
fn handshake_builds_client() {
    let mut info = IsMasterCommandResponse::default();
    info.msg = Some("isdbgrid".to_string());
    let c = TestClient::from_handshake(ClientOptions::default(), info, "4.4.2-ent").unwrap();
    assert_eq!(c.server_version, ServerVersion { major: 4, minor: 4, patch: 2 });
    assert!(c.is_sharded());
    let bad = TestClient::from_handshake(
        ClientOptions::default(),
        IsMasterCommandResponse::default(),
        "x.y",
    );
    assert_eq!(bad.err(), Some(VersionError::Malformed));
}

#[test]
fn sharded_only_on_router_tag() {
    assert!(client_with(Some("isdbgrid"), 4, 0, 0).is_sharded());
    assert!(!client_with(Some("isdbgrid2"), 4, 0, 0).is_sharded());
    assert!(!client_with(Some("ISDBGRID"), 4, 0, 0).is_sharded());
    assert!(!client_with(None, 4, 0, 0).is_sharded());
}

#[test]
fn topology_kinds_and_auth() {
    let mut c = client_with(None, 4, 0, 0);
    assert!(c.is_standalone());
    assert!(!c.is_replica_set());
    assert!(!c.auth_enabled());
    c.options.repl_set_name = Some("rs0".to_string());
    c.options.has_credential = true;
    assert!(c.is_replica_set());
    assert!(!c.is_standalone());
    assert!(c.auth_enabled());
    assert!(!client_with(Some("isdbgrid"), 4, 0, 0).is_standalone());
}

#[test]
fn gte_and_lt_partition() {
    for (maj, min) in [(3u64, 6u64), (4, 0), (4, 2), (4, 4), (5, 0)] {
        let c = client_with(None, maj, min, 9);
        for a in 2u64..7 {
            for b in 0u64..8 {
                assert!(c.server_version_gte(a, b) != c.server_version_lt(a, b));
            }
        }
    }
}

#[test]
fn version_comparisons_ignore_patch() {
    let c = client_with(None, 4, 2, 7);
    assert!(c.server_version_eq(4, 2));
    assert!(!c.server_version_eq(4, 3));
    assert!(c.server_version_gt(4, 1));
    assert!(c.server_version_gt(3, 9));
    assert!(!c.server_version_gt(4, 2));
    assert!(c.server_version_gte(4, 2));
    assert!(!c.server_version_gte(5, 0));
    assert!(c.server_version_lt(4, 3));
    assert!(!c.server_version_lt(4, 2));
    assert!(c.server_version_lte(4, 2));
    assert!(!c.server_version_lte(4, 1));
}

#[test]
fn fail_command_support_by_topology() {
    assert!(client_with(Some("isdbgrid"), 4, 1, 5).supports_fail_command());
    assert!(!client_with(Some("isdbgrid"), 4, 1, 4).supports_fail_command());
    assert!(!client_with(Some("isdbgrid"), 4, 0, 9).supports_fail_command());
    assert!(client_with(Some("isdbgrid"), 4, 2, 0).supports_fail_command());
    assert!(client_with(None, 4, 0, 0).supports_fail_command());
    assert!(!client_with(None, 3, 9, 9).supports_fail_command());
    assert!(!client_with(None, 3, 6, 0).supports_fail_command());
    assert!(!client_with(Some("isdbgrid"), 3, 6, 0).supports_fail_command());
}

#[test]
fn create_user_mechanisms_by_version() {
    let mechs = [AuthMechanism::ScramSha256];
    let old = client_with(None, 3, 6, 0).create_user("alice", Some("pwd"), &[], &mechs, None);
    assert!(old.mechanisms.is_none());
    let new = client_with(None, 4, 0, 0).create_user("alice", Some("pwd"), &[], &mechs, None);
    assert_eq!(new.mechanisms, Some(vec![AuthMechanism::ScramSha256]));
    let none = client_with(None, 4, 0, 0).create_user("alice", Some("pwd"), &[], &[], None);
    assert!(none.mechanisms.is_none());
}

#[test]
fn create_user_fields() {
    let roles = [Bson::String("read".to_string())];
    let c = client_with(None, 4, 2, 0);
    let cmd = c.create_user("bob", None, &roles, &[], Some("reports"));
    assert_eq!(cmd.user, "bob");
    assert_eq!(cmd.pwd, None);
    assert_eq!(cmd.roles, vec![Bson::String("read".to_string())]);
    assert_eq!(cmd.db, "reports");
    let admin = c.create_user("bob", Some("secret"), &[], &[], None);
    assert_eq!(admin.db, "admin");
    assert_eq!(admin.pwd.as_deref(), Some("secret"));
}

#[test]
fn drop_and_create_user_twice() {
    let c = client_with(None, 4, 2, 0);
    let first = c
        .drop_and_create_user(CommandOutcome::CommandFailed(USER_NOT_FOUND), "alice", Some("pwd"), &[], &[], None)
        .unwrap();
    let second = c
        .drop_and_create_user(CommandOutcome::Succeeded, "alice", Some("pwd"), &[], &[], None)
        .unwrap();
    assert_eq!(first.user, "alice");
    assert_eq!(second.user, "alice");
    assert_eq!(first.db, second.db);
    let drop = c.drop_user("alice", None);
    assert_eq!(drop.user, "alice");
    assert_eq!(drop.db, "admin");
}

#[test]
fn drop_and_create_user_passes_other_failures() {
    let c = client_with(None, 4, 2, 0);
    let r = c.drop_and_create_user(CommandOutcome::CommandFailed(13), "alice", None, &[], &[], None);
    assert_eq!(r.err(), Some(FixtureError::CommandFailed(13)));
    let r = c.drop_and_create_user(CommandOutcome::OtherFailure, "alice", None, &[], &[], None);
    assert_eq!(r.err(), Some(FixtureError::OtherFailure));
}

#[test]
fn drop_missing_collection_twice() {
    let missing = CommandOutcome::CommandFailed(NAMESPACE_NOT_FOUND);
    assert_eq!(drop_collection(missing), Ok(()));
    assert_eq!(drop_collection(missing), Ok(()));
    assert_eq!(drop_collection(CommandOutcome::Succeeded), Ok(()));
    assert_eq!(
        drop_collection(CommandOutcome::CommandFailed(USER_NOT_FOUND)),
        Err(FixtureError::CommandFailed(USER_NOT_FOUND))
    );
    assert_eq!(drop_collection(CommandOutcome::OtherFailure), Err(FixtureError::OtherFailure));
    let cmd = client_with(None, 4, 0, 0).drop_collection("db", "coll");
    assert_eq!((cmd.db.as_str(), cmd.coll.as_str()), ("db", "coll"));
}

#[test]
fn fail_point_released_once() {
    let mut g = FailPointGuard::install("failCommand".to_string(), CommandOutcome::Succeeded).unwrap();
    assert!(g.is_armed());
    assert_eq!(g.name(), "failCommand");
    let first = g.release();
    assert_eq!(first.map(|c| c.name), Some("failCommand".to_string()));
    assert!(!g.is_armed());
    assert!(g.release().is_none());
}

#[test]
fn fail_point_install_failure() {
    let r = FailPointGuard::install("failCommand".to_string(), CommandOutcome::CommandFailed(8));
    assert_eq!(r.err(), Some(FixtureError::CommandFailed(8)));
    let r = FailPointGuard::install("failCommand".to_string(), CommandOutcome::OtherFailure);
    assert_eq!(r.err(), Some(FixtureError::OtherFailure));
}

#[test]
fn additional_options_keep_one_router() {
    let opts = ClientOptions {
        hosts: vec!["a:27017".to_string(), "b:27017".to_string()],
        repl_set_name: None,
        has_credential: true,
    };
    let one = TestClient::with_additional_options(opts.clone(), false, true);
    assert_eq!(one.hosts, vec!["a:27017".to_string()]);
    assert!(one.has_credential);
    let all = TestClient::with_additional_options(opts.clone(), true, true);
    assert_eq!(all.hosts.len(), 2);
    let unsharded = TestClient::with_additional_options(opts, false, false);
    assert_eq!(unsharded.hosts.len(), 2);
}

#[test]
fn fresh_collection_after_drop() {
    let c = client_with(None, 4, 0, 0);
    let cmd = c
        .create_fresh_collection(CommandOutcome::CommandFailed(NAMESPACE_NOT_FOUND), "db", "coll", None)
        .unwrap();
    assert_eq!((cmd.db.as_str(), cmd.coll.as_str()), ("db", "coll"));
    assert!(c.create_fresh_collection(CommandOutcome::Succeeded, "db", "coll", None).is_ok());
    let r = c.create_fresh_collection(CommandOutcome::CommandFailed(13), "db", "coll", None);
    assert_eq!(r.err(), Some(FixtureError::CommandFailed(13)));
}

#[test]
fn enable_failpoint_through_client() {
    let c = client_with(Some("isdbgrid"), 4, 2, 0);
    let fp = FailPoint {
        name: "failCommand".to_string(),
        mode: FailPointMode::Times(1),
        data: bson::Document::new(),
    };
    let mut g = c.enable_failpoint(&fp, CommandOutcome::Succeeded).unwrap();
    assert_eq!(g.name(), "failCommand");
    assert!(g.release().is_some());
    assert!(g.release().is_none());
    let r = c.enable_failpoint(&fp, CommandOutcome::OtherFailure);
    assert_eq!(r.err(), Some(FixtureError::OtherFailure));
}

#[test]
fn handshake_runs_both_commands_in_order() {
    let (state, action) = SessionHandshake::start(ClientOptions::default());
    assert!(matches!(action, HandshakeAction::Send(HandshakeCommand::IsMaster)));
    assert_eq!(HandshakeCommand::IsMaster.database(), "admin");
    let mut info = IsMasterCommandResponse::default();
    info.msg = Some("isdbgrid".to_string());
    let (state, action) = state.step(HandshakeEvent::TopologyReply(info));
    assert!(matches!(action, HandshakeAction::Send(HandshakeCommand::BuildInfo)));
    assert_eq!(HandshakeCommand::BuildInfo.database(), "test");
    let (state, action) = state.step(HandshakeEvent::BuildInfoReply("4.1.5-rc2".to_string()));
    match action {
        HandshakeAction::Ready(c) => {
            assert_eq!(c.server_version, ServerVersion { major: 4, minor: 1, patch: 5 });
            assert!(c.is_sharded());
            assert!(c.supports_fail_command());
        }
        other => panic!("unexpected {:?}", other),
    }
    assert!(matches!(state, SessionHandshake::Finished));
}

#[test]
fn handshake_failures_are_fatal() {
    let (state, _) = SessionHandshake::start(ClientOptions::default());
    let (state, action) = state.step(HandshakeEvent::Failed);
    assert!(matches!(action, HandshakeAction::Abort(BootstrapError::CommandFailed)));
    let (_, action) = state.step(HandshakeEvent::Failed);
    assert!(matches!(action, HandshakeAction::Abort(BootstrapError::UnexpectedReply)));

    let (state, _) = SessionHandshake::start(ClientOptions::default());
    let (_, action) = state.step(HandshakeEvent::BuildInfoReply("4.0.0".to_string()));
    assert!(matches!(action, HandshakeAction::Abort(BootstrapError::UnexpectedReply)));

    let (state, _) = SessionHandshake::start(ClientOptions::default());
    let (state, _) = state.step(HandshakeEvent::TopologyReply(IsMasterCommandResponse::default()));
    let (_, action) = state.step(HandshakeEvent::BuildInfoReply("not a version".to_string()));
    assert!(matches!(action, HandshakeAction::Abort(BootstrapError::BadVersion)));
}

#[test]
fn create_user_document_fields() {
    let roles = [Bson::String("read".to_string())];
    let mechs = [AuthMechanism::ScramSha1, AuthMechanism::ScramSha256];
    let new = client_with(None, 4, 0, 0).create_user("alice", Some("pwd"), &roles, &mechs, None);
    let d = new.to_document();
    let keys: Vec<&String> = d.keys().collect();
    assert_eq!(keys, vec!["createUser", "roles", "pwd", "mechanisms"]);
    assert_eq!(d.get_str("createUser").unwrap(), "alice");
    assert_eq!(d.get_str("pwd").unwrap(), "pwd");
    assert_eq!(d.get_array("roles").unwrap(), &vec![Bson::String("read".to_string())]);
    assert_eq!(
        d.get_array("mechanisms").unwrap(),
        &vec![Bson::String("SCRAM-SHA-1".to_string()), Bson::String("SCRAM-SHA-256".to_string())]
    );
    let old = client_with(None, 3, 6, 0).create_user("alice", None, &[], &mechs, None);
    let d = old.to_document();
    assert!(!d.contains_key("mechanisms"));
    assert!(!d.contains_key("pwd"));
    assert_eq!(d.len(), 2);
}

#[test]
fn other_command_documents() {
    let c = client_with(None, 4, 0, 0);
    let d = c.drop_user("alice", None).to_document();
    assert_eq!(d.get_str("dropUser").unwrap(), "alice");
    assert_eq!(d.len(), 1);
    let d = c.drop_collection("db", "coll").to_document();
    assert_eq!(d.get_str("drop").unwrap(), "coll");
    let d = c
        .create_fresh_collection(CommandOutcome::Succeeded, "db", "fresh", None)
        .unwrap()
        .to_document();
    assert_eq!(d.get_str("create").unwrap(), "fresh");
    let d = HandshakeCommand::IsMaster.to_document();
    assert_eq!(d.get_i32("isMaster").unwrap(), 1);
    let d = HandshakeCommand::BuildInfo.to_document();
    assert_eq!(d.get_i32("buildInfo").unwrap(), 1);
    assert_eq!(AuthMechanism::MongoDbX509.as_str(), "MONGODB-X509");
}

#[test]
fn fail_point_off_document() {
    let mut g = FailPointGuard::install("failCommand".to_string(), CommandOutcome::Succeeded).unwrap();
    let d = g.release().unwrap().to_document();
    let keys: Vec<&String> = d.keys().collect();
    assert_eq!(keys, vec!["configureFailPoint", "mode"]);
    assert_eq!(d.get_str("configureFailPoint").unwrap(), "failCommand");
    assert_eq!(d.get_str("mode").unwrap(), "off");
}

#[test]
fn fresh_collection_carries_options() {
    let c = client_with(None, 4, 0, 0);
    let mut opts = bson::Document::new();
    opts.insert("capped", true);
    opts.insert("size", 4096i32);
    opts.insert("validationLevel", "strict");
    let cmd = c
        .create_fresh_collection(CommandOutcome::Succeeded, "db", "capped_coll", Some(opts.clone()))
        .unwrap();
    assert_eq!(cmd.options, Some(opts));
    let d = cmd.to_document();
    let keys: Vec<&String> = d.keys().collect();
    assert_eq!(keys, vec!["create", "capped", "size", "validationLevel"]);
    assert_eq!(d.get_str("create").unwrap(), "capped_coll");
    assert_eq!(d.get_bool("capped").unwrap(), true);
    assert_eq!(d.get_i32("size").unwrap(), 4096);
    assert_eq!(d.get_str("validationLevel").unwrap(), "strict");
}

#[test]
fn fail_point_install_document() {
    let mut data = bson::Document::new();
    data.insert("failCommands", vec!["insert"]);
    data.insert("errorCode", 11600i32);
    let fp = FailPoint { name: "failCommand".to_string(), mode: FailPointMode::Times(2), data: data.clone() };
    let d = fp.to_document();
    let keys: Vec<&String> = d.keys().collect();
    assert_eq!(keys, vec!["configureFailPoint", "mode", "data"]);
    assert_eq!(d.get_str("configureFailPoint").unwrap(), "failCommand");
    assert_eq!(d.get_document("mode").unwrap().get_i32("times").unwrap(), 2);
    assert_eq!(d.get_document("data").unwrap(), &data);
    let on = FailPoint { name: "x".to_string(), mode: FailPointMode::AlwaysOn, data: bson::Document::new() };
    assert_eq!(on.to_document().get_str("mode").unwrap(), "alwaysOn");
    let off = FailPoint { name: "x".to_string(), mode: FailPointMode::Off, data: bson::Document::new() };
    assert_eq!(off.to_document().get_str("mode").unwrap(), "off");
}

#[test]
fn merge_fills_unset_options() {
    let mut given = ClientOptions { hosts: vec!["a:1".to_string()], repl_set_name: None, has_credential: false };
    let defaults = ClientOptions {
        hosts: vec!["b:2".to_string(), "c:3".to_string()],
        repl_set_name: Some("rs0".to_string()),
        has_credential: true,
    };
    given.merge(defaults.clone());
    assert_eq!(given.hosts, vec!["a:1".to_string()]);
    assert_eq!(given.repl_set_name.as_deref(), Some("rs0"));
    assert!(given.has_credential);
    let mut named = ClientOptions { hosts: vec![], repl_set_name: Some("mine".to_string()), has_credential: false };
    named.merge(ClientOptions { hosts: vec![], repl_set_name: Some("rs0".to_string()), has_credential: false });
    assert_eq!(named.repl_set_name.as_deref(), Some("mine"));
    assert!(!named.has_credential);
}

#[test]
fn require_success_outcomes() {
    assert_eq!(require_success(CommandOutcome::Succeeded), Ok(()));
    assert_eq!(require_success(CommandOutcome::CommandFailed(26)), Err(FixtureError::CommandFailed(26)));
    assert_eq!(require_success(CommandOutcome::OtherFailure), Err(FixtureError::OtherFailure));
}
