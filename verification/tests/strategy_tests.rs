use sherpa_s3::error::TransferError;
use sherpa_s3::locator::classify_endpoint;
use sherpa_s3::strategy::{select_strategy, TransferStrategy};

fn classified(descriptor: &str) -> sherpa_s3::locator::EndpointClassification {
    classify_endpoint(descriptor).unwrap()
}

#[test]
fn remote_remote_selects_server_side_copy() {
    let src = classified("s3://a/x");
    let dst = classified("s3://b/y");
    assert_eq!(select_strategy(&src, &dst), Ok(TransferStrategy::RemoteToRemote));
}

#[test]
fn local_remote_selects_upload() {
    let src = classified("./x");
    let dst = classified("s3://b/y");
    assert_eq!(select_strategy(&src, &dst), Ok(TransferStrategy::UploadLocalToRemote));
}

#[test]
fn remote_local_selects_download() {
    let src = classified("s3://a/x");
    let dst = classified("./y");
    assert_eq!(select_strategy(&src, &dst), Ok(TransferStrategy::DownloadRemoteToLocal));
}

#[test]
fn local_local_is_rejected() {
    let src = classified("./x");
    let dst = classified("./y");
    assert_eq!(select_strategy(&src, &dst), Err(TransferError::NoRemoteEndpoint));
}
