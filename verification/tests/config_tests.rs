use sherpa_s3::config::{default_config, resolve_config, Config, ConfigDecision, LoadOutcome};
use sherpa_s3::error::TransferError;

fn real_config() -> Config {
    Config {
        access_key_id: "AKIDEXAMPLE".to_string(),
        secret_access_key: "not-a-placeholder".to_string(),
        region: "eu-west-1".to_string(),
        endpoint_url: Some("https://s3.example.test".to_string()),
    }
}

#[test]
fn a_loaded_configuration_is_used() {
    let c = real_config();
    assert_eq!(
        resolve_config(LoadOutcome::Loaded(real_config())),
        ConfigDecision::Use(c)
    );
}

#[test]
fn a_missing_file_creates_placeholders_and_aborts() {
    let d = resolve_config(LoadOutcome::Missing);
    let expected = Config {
        access_key_id: "YOUR_ACCESS_KEY_ID".to_string(),
        secret_access_key: "YOUR_SECRET_ACCESS_KEY".to_string(),
        region: "us-east-1".to_string(),
        endpoint_url: None,
    };
    assert_eq!(d, ConfigDecision::CreateDefaultAndAbort(expected));
}

#[test]
fn default_config_holds_the_placeholders() {
    let c = default_config();
    assert_eq!(c.access_key_id, "YOUR_ACCESS_KEY_ID");
    assert_eq!(c.secret_access_key, "YOUR_SECRET_ACCESS_KEY");
    assert_eq!(c.region, "us-east-1");
    assert_eq!(c.endpoint_url, None);
}

#[test]
fn placeholder_credentials_abort() {
    let mut c = real_config();
    c.access_key_id = "YOUR_ACCESS_KEY_ID".to_string();
    assert_eq!(
        resolve_config(LoadOutcome::Loaded(c)),
        ConfigDecision::AbortPlaceholder
    );

    let mut c = real_config();
    c.secret_access_key = "YOUR_SECRET_ACCESS_KEY".to_string();
    assert_eq!(
        resolve_config(LoadOutcome::Loaded(c)),
        ConfigDecision::AbortPlaceholder
    );
}

#[test]
fn a_failed_load_aborts_with_its_cause() {
    assert_eq!(
        resolve_config(LoadOutcome::Failed("bad TOML".to_string())),
        ConfigDecision::AbortLoadFailed("bad TOML".to_string())
    );
}

#[test]
fn error_messages_surface_the_cause_unmodified() {
    assert_eq!(
        TransferError::MalformedRemoteLocator.message(),
        "malformed remote locator: expected 's3://bucket/key' with non-empty bucket and key"
    );
    assert_eq!(
        TransferError::NoRemoteEndpoint.message(),
        "at least one of source or destination must be an 's3://' path"
    );
    assert_eq!(
        TransferError::RemoteCopyFailed("503".to_string()).message(),
        "remote copy failed: 503"
    );
    assert_eq!(
        TransferError::RemoteWriteFailed("denied".to_string()).message(),
        "remote write failed: denied"
    );
    assert_eq!(
        TransferError::RemoteReadFailed("missing".to_string()).message(),
        "remote read failed: missing"
    );
    assert_eq!(
        TransferError::LocalReadFailed("not found".to_string()).message(),
        "local read failed: not found"
    );
    assert_eq!(
        TransferError::LocalWriteFailed("read-only".to_string()).message(),
        "local write failed: read-only"
    );
}
