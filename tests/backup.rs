use gcs_sql_backup::{
    diagnose_exit, Diagnostic, Dumper, EnvVar, GcsClient, Settings, SqlConfig, SqlDump,
    MAX_EPOCH_SECS, MIN_EPOCH_SECS,
};

fn some(s: &str) -> Option<String> {
    Some(s.to_string())
}

fn sample_config() -> SqlConfig {
    SqlConfig {
        host: "db.local".to_string(),
        port: "3306".to_string(),
        database: "shop".to_string(),
        user: "admin".to_string(),
        password: "s3cret".to_string(),
    }
}

#[test]
fn build_args_in_fixed_order() {
    let dumper = Dumper::new(sample_config());
    let args = dumper.build_args();
    assert_eq!(args, ["-hdb.local", "-P3306", "-uadmin", "-ps3cret", "shop"]);
}

#[test]
fn build_args_with_empty_values() {
    let dumper = Dumper::new(SqlConfig {
        host: String::new(),
        port: String::new(),
        database: String::new(),
        user: String::new(),
        password: String::new(),
    });
    assert_eq!(dumper.build_args(), ["-h", "-P", "-u", "-p", ""]);
}

#[test]
fn settings_from_complete_values() {
    let s = Settings::from_values(
        some("h"),
        some("3306"),
        some("db"),
        some("u"),
        some("pw"),
        some("b1"),
        some("tok"),
    )
    .unwrap();
    assert_eq!(s.sql.host, "h");
    assert_eq!(s.sql.port, "3306");
    assert_eq!(s.sql.database, "db");
    assert_eq!(s.sql.user, "u");
    assert_eq!(s.sql.password, "pw");
    assert_eq!(s.storage.bucket, "b1");
    assert_eq!(s.storage.oauth_token, "tok");
}

#[test]
fn settings_name_each_missing_variable() {
    let expected = [
        EnvVar::MysqlHost,
        EnvVar::MysqlPort,
        EnvVar::MysqlDatabase,
        EnvVar::MysqlUser,
        EnvVar::MysqlPassword,
        EnvVar::GcsBucket,
        EnvVar::GcsOauthToken,
    ];
    for (i, var) in expected.iter().enumerate() {
        let mut vals: Vec<Option<String>> = (0..7).map(|_| some("x")).collect();
        vals[i] = None;
        let r = Settings::from_values(
            vals[0].clone(),
            vals[1].clone(),
            vals[2].clone(),
            vals[3].clone(),
            vals[4].clone(),
            vals[5].clone(),
            vals[6].clone(),
        );
        assert_eq!(r.err(), Some(*var));
    }
}

#[test]
fn settings_report_first_missing_variable() {
    let r = Settings::from_values(some("h"), None, some("db"), None, some("pw"), None, None);
    assert_eq!(r.err(), Some(EnvVar::MysqlPort));
}

#[test]
fn settings_with_nothing_set() {
    let r = Settings::from_values(None, None, None, None, None, None, None);
    assert_eq!(r.err(), Some(EnvVar::MysqlHost));
}

#[test]
fn env_var_names() {
    assert_eq!(EnvVar::MysqlHost.name(), "MYSQL_HOST");
    assert_eq!(EnvVar::MysqlPort.name(), "MYSQL_PORT");
    assert_eq!(EnvVar::MysqlDatabase.name(), "MYSQL_DATABASE");
    assert_eq!(EnvVar::MysqlUser.name(), "MYSQL_USER");
    assert_eq!(EnvVar::MysqlPassword.name(), "MYSQL_PASSWORD");
    assert_eq!(EnvVar::GcsBucket.name(), "GCS_BUCKET");
    assert_eq!(EnvVar::GcsOauthToken.name(), "GCS_OAUTH_TOKEN");
}

#[test]
fn object_name_is_epoch_seconds() {
    let dump = SqlDump::new(1700000000, b"x".to_vec());
    assert_eq!(dump.object_name(), "1700000000.sql");
}

#[test]
fn object_name_at_epoch_and_before() {
    assert_eq!(SqlDump::new(0, Vec::new()).object_name(), "0.sql");
    assert_eq!(SqlDump::new(-5, Vec::new()).object_name(), "-5.sql");
}

#[test]
fn object_name_at_range_limits() {
    assert_eq!(
        SqlDump::new(MAX_EPOCH_SECS, Vec::new()).object_name(),
        "8210266876799.sql"
    );
    assert_eq!(
        SqlDump::new(MIN_EPOCH_SECS, Vec::new()).object_name(),
        "-8334601228800.sql"
    );
}

#[test]
fn epoch_limits_match_chrono() {
    assert_eq!(chrono::DateTime::<chrono::Utc>::MAX_UTC.timestamp(), MAX_EPOCH_SECS);
    assert_eq!(chrono::DateTime::<chrono::Utc>::MIN_UTC.timestamp(), MIN_EPOCH_SECS);
    assert!(chrono::DateTime::from_timestamp(MAX_EPOCH_SECS + 1, 0).is_none());
    assert!(chrono::DateTime::from_timestamp(MIN_EPOCH_SECS - 1, 0).is_none());
}

#[test]
fn storage_request_for_known_target() {
    let dump = SqlDump::new(1700000000, b"CREATE TABLE t;".to_vec());
    let client = GcsClient::new("b1".to_string(), "tok".to_string(), dump);
    assert_eq!(
        client.build_storage_uri(),
        "https://www.googleapis.com/upload/storage/v1/b/b1/o?uploadType=media&name=1700000000.sql"
    );
    assert_eq!(client.authorization(), "Bearer tok");
    let req = client.request();
    assert_eq!(
        req.url,
        "https://www.googleapis.com/upload/storage/v1/b/b1/o?uploadType=media&name=1700000000.sql"
    );
    assert_eq!(req.authorization, "Bearer tok");
    assert_eq!(req.body, "CREATE TABLE t;");
}

#[test]
fn request_body_keeps_multibyte_text() {
    let text = "INSERT INTO t VALUES ('caf\u{e9}', '\u{1f600}');";
    let dump = SqlDump::new(42, text.as_bytes().to_vec());
    let client = GcsClient::new("b".to_string(), "t".to_string(), dump);
    assert!(client.dump.text().is_ok());
    let req = client.request();
    assert_eq!(req.body.as_bytes(), text.as_bytes());
}

#[test]
fn request_refuses_invalid_utf8() {
    let dump = SqlDump::new(1700000000, vec![b'a', 0xff, b'b']);
    let client = GcsClient::new("b1".to_string(), "tok".to_string(), dump);
    let err = client.dump.text().unwrap_err();
    assert_eq!(err.valid_up_to(), 1);
}

#[test]
fn to_str_decodes_or_fails() {
    let good = SqlDump::new(1, b"select 1;".to_vec());
    assert_eq!(good.text().unwrap(), "select 1;");
    assert_eq!(good.to_str(), "select 1;");
    let bad = SqlDump::new(1, vec![0xc3, 0x28]);
    let err = bad.text().unwrap_err();
    assert_eq!(err.valid_up_to(), 0);
    let empty = SqlDump::new(1, Vec::new());
    assert_eq!(empty.to_str(), "");
}

#[test]
fn text_refuses_stray_byte_without_replacing() {
    let dump = SqlDump::new(1, vec![0x2d, 0x2d, 0xff, 0x0a]);
    let err = dump.text().unwrap_err();
    assert_eq!(err.valid_up_to(), 2);
}

#[test]
fn capture_keeps_payload_on_success() {
    let payload = b"-- dump\nCREATE TABLE t (id INT);\n".to_vec();
    let before = chrono::Utc::now().timestamp();
    let outcome = SqlDump::capture(true, payload.clone(), b"warning ignored");
    let after = chrono::Utc::now().timestamp();
    assert_eq!(outcome.dump.sql, payload);
    assert!(outcome.diagnostic.is_none());
    assert!(before <= outcome.dump.timestamp && outcome.dump.timestamp <= after);
}

#[test]
fn capture_forwards_output_on_failure() {
    let outcome = SqlDump::capture(false, b"partial".to_vec(), b"access denied");
    assert_eq!(outcome.dump.sql, b"partial".to_vec());
    match outcome.diagnostic {
        Some(Diagnostic::Failed(text)) => assert_eq!(text, "access denied"),
        other => panic!("unexpected diagnostic: {:?}", other),
    }
}

#[test]
fn capture_forwards_empty_output_on_failure() {
    let outcome = SqlDump::capture(false, Vec::new(), b"");
    assert!(outcome.dump.sql.is_empty());
    match outcome.diagnostic {
        Some(Diagnostic::Failed(text)) => assert_eq!(text, ""),
        other => panic!("unexpected diagnostic: {:?}", other),
    }
}

#[test]
fn diagnose_exit_with_undecodable_stderr() {
    assert!(matches!(
        diagnose_exit(false, &[0xfe, 0xfe]),
        Some(Diagnostic::Undecodable(_))
    ));
    assert!(diagnose_exit(true, &[0xfe, 0xfe]).is_none());
}
