use sherpa_s3::error::TransferError;
use sherpa_s3::locator::{classify_endpoint, is_remote_descriptor, parse_s3_path, EndpointClassification, RemoteLocator};

#[test]
fn parse_simple_remote_descriptor() {
    let r = parse_s3_path("s3://b/k").unwrap();
    assert_eq!(
        r,
        RemoteLocator { bucket: "b".to_string(), key: "k".to_string() }
    );
}

#[test]
fn parse_remote_descriptor_key_keeps_later_slashes() {
    let r = parse_s3_path("s3://my-bucket/dir/sub/file.txt").unwrap();
    assert_eq!(r.bucket, "my-bucket");
    assert_eq!(r.key, "dir/sub/file.txt");
}

#[test]
fn parse_without_separator_is_malformed() {
    assert_eq!(
        parse_s3_path("s3://bucket-only"),
        Err(TransferError::MalformedRemoteLocator)
    );
}

#[test]
fn parse_empty_bucket_is_malformed() {
    assert_eq!(
        parse_s3_path("s3:///key"),
        Err(TransferError::MalformedRemoteLocator)
    );
}

#[test]
fn parse_empty_key_is_malformed() {
    assert_eq!(
        parse_s3_path("s3://bucket/"),
        Err(TransferError::MalformedRemoteLocator)
    );
}

#[test]
fn parse_bare_prefix_is_malformed() {
    assert_eq!(parse_s3_path("s3://"), Err(TransferError::MalformedRemoteLocator));
}

#[test]
fn classify_remote_descriptor() {
    let c = classify_endpoint("s3://data/reports/2024.csv").unwrap();
    assert_eq!(
        c,
        EndpointClassification::Remote(RemoteLocator {
            bucket: "data".to_string(),
            key: "reports/2024.csv".to_string(),
        })
    );
}

#[test]
fn classify_local_paths_regardless_of_content() {
    for descriptor in [
        "./local.bin",
        "/tmp/a",
        "bucket/key",
        "S3://bucket/key",
        "s3:/bucket/key",
        "s3//bucket/key",
        "",
        "file-that-resembles-s3-bucket-key",
    ] {
        let c = classify_endpoint(descriptor).unwrap();
        assert_eq!(
            c,
            EndpointClassification::Local(descriptor.to_string()),
            "descriptor {:?} must classify as local",
            descriptor
        );
    }
}

#[test]
fn classify_malformed_remote_descriptor_fails() {
    assert_eq!(
        classify_endpoint("s3://no-key-here"),
        Err(TransferError::MalformedRemoteLocator)
    );
}

#[test]
fn remote_descriptor_detection_matches_prefix() {
    assert!(is_remote_descriptor("s3://a/b"));
    assert!(is_remote_descriptor("s3://"));
    assert!(!is_remote_descriptor("s3:/"));
    assert!(!is_remote_descriptor("S3://a/b"));
    assert!(!is_remote_descriptor("a/b"));
    assert!(!is_remote_descriptor(""));
}

#[test]
fn parse_multibyte_descriptor() {
    let r = parse_s3_path("s3://bücher/später/ärchiv").unwrap();
    assert_eq!(r.bucket, "bücher");
    assert_eq!(r.key, "später/ärchiv");
}
