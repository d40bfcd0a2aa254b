use sherpa_s3::error::{TransferError, TransferOutcome};
use sherpa_s3::strategy::TransferStrategy;
use sherpa_s3::transfer::{
    plan_transfer, Action, CopyRequest, Event, GetRequest, PutRequest, TransferMachine,
};

#[test]
fn remote_to_remote_issues_exactly_one_copy_request() {
    let plan = plan_transfer("s3://src-bucket/a.txt", "s3://dst-bucket/b.txt").unwrap();
    assert_eq!(plan.strategy(), TransferStrategy::RemoteToRemote);

    let mut machine = TransferMachine::new(plan);
    assert_eq!(
        machine.initial_action(),
        Action::SendCopy(CopyRequest {
            copy_source: "src-bucket/a.txt".to_string(),
            bucket: "dst-bucket".to_string(),
            key: "b.txt".to_string(),
        })
    );
    assert!(!machine.is_complete());

    let action = machine.step(Event::RemoteDone);
    assert_eq!(action, Action::Report(TransferOutcome::Copied));
    assert!(machine.is_complete());
    assert_eq!(TransferOutcome::Copied.exit_code(), 0);
}

#[test]
fn remote_copy_failure_surfaces_the_cause() {
    let plan = plan_transfer("s3://a/x", "s3://b/y").unwrap();
    let mut machine = TransferMachine::new(plan);
    machine.initial_action();
    let action = machine.step(Event::RemoteFailed("access denied".to_string()));
    let outcome = TransferOutcome::Failed(TransferError::RemoteCopyFailed(
        "access denied".to_string(),
    ));
    assert_eq!(action, Action::Report(outcome));
    assert!(machine.is_complete());
}

#[test]
fn upload_reads_whole_file_then_puts_its_bytes() {
    let plan = plan_transfer("./local.bin", "s3://dst/key.bin").unwrap();
    assert_eq!(plan.strategy(), TransferStrategy::UploadLocalToRemote);

    let mut machine = TransferMachine::new(plan);
    assert_eq!(
        machine.initial_action(),
        Action::ReadLocalFile("./local.bin".to_string())
    );

    let contents = vec![1u8, 2, 3, 4, 5];
    let action = machine.step(Event::LocalReadDone(contents.clone()));
    assert_eq!(
        action,
        Action::SendPut(PutRequest {
            bucket: "dst".to_string(),
            key: "key.bin".to_string(),
            body: contents,
        })
    );
    assert!(!machine.is_complete());

    let action = machine.step(Event::RemoteDone);
    assert_eq!(action, Action::Report(TransferOutcome::Uploaded));
    assert!(machine.is_complete());
}

#[test]
fn upload_of_an_empty_file_puts_an_empty_body() {
    let plan = plan_transfer("./empty.bin", "s3://dst/key.bin").unwrap();
    let mut machine = TransferMachine::new(plan);
    machine.initial_action();
    let action = machine.step(Event::LocalReadDone(Vec::new()));
    assert_eq!(
        action,
        Action::SendPut(PutRequest {
            bucket: "dst".to_string(),
            key: "key.bin".to_string(),
            body: Vec::new(),
        })
    );
}

#[test]
fn upload_fails_when_the_local_file_cannot_be_read() {
    let plan = plan_transfer("./missing.bin", "s3://dst/key.bin").unwrap();
    let mut machine = TransferMachine::new(plan);
    machine.initial_action();
    let action = machine.step(Event::LocalFailed("no such file".to_string()));
    let outcome =
        TransferOutcome::Failed(TransferError::LocalReadFailed("no such file".to_string()));
    assert_eq!(outcome.exit_code(), 1);
    assert_eq!(action, Action::Report(outcome));
}

#[test]
fn upload_fails_when_the_put_request_fails() {
    let plan = plan_transfer("./local.bin", "s3://dst/key.bin").unwrap();
    let mut machine = TransferMachine::new(plan);
    machine.initial_action();
    machine.step(Event::LocalReadDone(vec![9u8]));
    let action = machine.step(Event::RemoteFailed("bucket does not exist".to_string()));
    assert_eq!(
        action,
        Action::Report(TransferOutcome::Failed(TransferError::RemoteWriteFailed(
            "bucket does not exist".to_string()
        )))
    );
}

#[test]
fn download_streams_chunks_in_arrival_order() {
    let plan = plan_transfer("s3://src/key.bin", "./out.bin").unwrap();
    assert_eq!(plan.strategy(), TransferStrategy::DownloadRemoteToLocal);

    let mut machine = TransferMachine::new(plan);
    assert_eq!(
        machine.initial_action(),
        Action::SendGet(GetRequest { bucket: "src".to_string(), key: "key.bin".to_string() })
    );

    let action = machine.step(Event::RemoteDone);
    assert_eq!(action, Action::CreateLocalFile("./out.bin".to_string()));

    let action = machine.step(Event::LocalDone);
    assert_eq!(action, Action::PullChunk);

    let action = machine.step(Event::ChunkArrived(vec![10u8, 11]));
    assert_eq!(action, Action::WriteChunk(vec![10u8, 11]));
    let action = machine.step(Event::LocalDone);
    assert_eq!(action, Action::PullChunk);

    let action = machine.step(Event::ChunkArrived(vec![12u8]));
    assert_eq!(action, Action::WriteChunk(vec![12u8]));
    let action = machine.step(Event::LocalDone);
    assert_eq!(action, Action::PullChunk);

    let action = machine.step(Event::BodyFinished);
    assert_eq!(action, Action::Report(TransferOutcome::Downloaded));
    assert!(machine.is_complete());
}

#[test]
fn download_fails_when_the_get_request_fails() {
    let plan = plan_transfer("s3://src/key.bin", "./out.bin").unwrap();
    let mut machine = TransferMachine::new(plan);
    machine.initial_action();
    let action = machine.step(Event::RemoteFailed("no such key".to_string()));
    assert_eq!(
        action,
        Action::Report(TransferOutcome::Failed(TransferError::RemoteReadFailed(
            "no such key".to_string()
        )))
    );
}

#[test]
fn download_fails_when_the_destination_cannot_be_created() {
    let plan = plan_transfer("s3://src/key.bin", "/no/such/dir/out.bin").unwrap();
    let mut machine = TransferMachine::new(plan);
    machine.initial_action();
    machine.step(Event::RemoteDone);
    let action = machine.step(Event::LocalFailed("permission denied".to_string()));
    assert_eq!(
        action,
        Action::Report(TransferOutcome::Failed(TransferError::LocalWriteFailed(
            "permission denied".to_string()
        )))
    );
}

#[test]
fn download_fails_when_a_chunk_cannot_be_written() {
    let plan = plan_transfer("s3://src/key.bin", "./out.bin").unwrap();
    let mut machine = TransferMachine::new(plan);
    machine.initial_action();
    machine.step(Event::RemoteDone);
    machine.step(Event::LocalDone);
    machine.step(Event::ChunkArrived(vec![1u8]));
    let action = machine.step(Event::LocalFailed("disk full".to_string()));
    assert_eq!(
        action,
        Action::Report(TransferOutcome::Failed(TransferError::LocalWriteFailed(
            "disk full".to_string()
        )))
    );
}

#[test]
fn two_local_paths_are_rejected_before_any_io() {
    assert_eq!(
        plan_transfer("./a", "./b"),
        Err(TransferError::NoRemoteEndpoint)
    );
}

#[test]
fn malformed_source_is_rejected_before_any_io() {
    assert_eq!(
        plan_transfer("s3://only-bucket", "./b"),
        Err(TransferError::MalformedRemoteLocator)
    );
    assert_eq!(
        plan_transfer("s3://a/x", "s3://broken/"),
        Err(TransferError::MalformedRemoteLocator)
    );
}

#[test]
fn unexpected_events_change_nothing() {
    let plan = plan_transfer("s3://a/x", "s3://b/y").unwrap();
    let mut machine = TransferMachine::new(plan);
    machine.initial_action();
    // A chunk can only arrive during a download; a copy machine ignores it.
    let action = machine.step(Event::ChunkArrived(vec![1u8]));
    assert_eq!(action, Action::Ignore);
    assert!(!machine.is_complete());
    let action = machine.step(Event::RemoteDone);
    assert_eq!(action, Action::Report(TransferOutcome::Copied));
}
