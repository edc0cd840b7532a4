use rssh::error::RsshError;
use rssh::ssh::transfer::{
    Direction, Transfer, TransferAction, TransferEvent, COPY_CAPACITY,
};
use rssh::ssh::{handle_download, handle_upload};

fn failed(reason: &str) -> TransferEvent {
    TransferEvent::Failed { reason: reason.to_string() }
}

fn is_transfer_failed(action: &TransferAction, why: &str) -> bool {
    matches!(
        action,
        TransferAction::Abort { error: RsshError::TransferFailed { reason } } if reason == why
    )
}

/// An upload of `report.txt` that is ready to read its first chunk.
fn uploading(size: u64) -> Transfer {
    let (mut transfer, action) = handle_upload("report.txt", true, "/home/u/in");
    assert!(matches!(action, TransferAction::OpenSource { ref path } if path == "report.txt"));
    assert!(matches!(transfer.step(TransferEvent::Done), TransferAction::StatSource));
    assert!(matches!(transfer.step(TransferEvent::Size(Some(size))), TransferAction::OpenSftp));
    let action = transfer.step(TransferEvent::Done);
    assert!(matches!(
        action,
        TransferAction::CreateDestination { ref path } if path == "/home/u/in/report.txt"
    ));
    let action = transfer.step(TransferEvent::Done);
    assert!(matches!(action, TransferAction::Read { capacity: COPY_CAPACITY }));
    transfer
}

#[test]
fn upload_goes_into_the_remote_directory_under_its_base_name() {
    let (transfer, _) = handle_upload("report.txt", true, "/home/u/in");
    let descriptor = transfer.descriptor();
    assert_eq!(descriptor.local_path, "report.txt");
    assert_eq!(descriptor.remote_path, "/home/u/in/report.txt");
    assert_eq!(descriptor.direction, Direction::Upload);
    assert_eq!(descriptor.total_bytes, 0);
    assert_eq!(descriptor.bytes_transferred, 0);

    let (transfer, _) = handle_upload("/var/tmp/out/report.txt", true, "/home/u/in/");
    assert_eq!(transfer.descriptor().remote_path, "/home/u/in/report.txt");
}

#[test]
fn upload_of_1024_bytes_transfers_1024_bytes() {
    let mut transfer = uploading(1024);
    assert_eq!(transfer.descriptor().total_bytes, 1024);
    let chunks: Vec<Vec<u8>> = vec![vec![1u8; 400], vec![2u8; 400], vec![3u8; 224]];
    let mut written: Vec<Vec<u8>> = Vec::new();
    for chunk in &chunks {
        match transfer.step(TransferEvent::Data(chunk.clone())) {
            TransferAction::Write { bytes } => written.push(bytes),
            _ => panic!("a chunk was not written"),
        }
        assert!(matches!(transfer.step(TransferEvent::Done), TransferAction::Read { .. }));
    }
    assert!(matches!(transfer.step(TransferEvent::Data(Vec::new())), TransferAction::Finish));
    assert!(transfer.is_done());
    assert!(transfer.is_finished());
    assert_eq!(written, chunks);
    assert_eq!(transfer.descriptor().remote_path, "/home/u/in/report.txt");
    assert_eq!(transfer.descriptor().bytes_transferred, 1024);
    assert_eq!(transfer.descriptor().total_bytes, 1024);
}

#[test]
fn bytes_are_counted_once_they_are_written() {
    let mut transfer = uploading(10);
    transfer.step(TransferEvent::Data(vec![0u8; 6]));
    assert_eq!(transfer.descriptor().bytes_transferred, 0);
    transfer.step(TransferEvent::Done);
    assert_eq!(transfer.descriptor().bytes_transferred, 6);
    transfer.step(TransferEvent::Data(vec![0u8; 4]));
    assert_eq!(transfer.descriptor().bytes_transferred, 6);
    transfer.step(TransferEvent::Done);
    assert_eq!(transfer.descriptor().bytes_transferred, 10);
}

#[test]
fn empty_file_is_transferred_at_once() {
    let mut transfer = uploading(0);
    assert!(matches!(transfer.step(TransferEvent::Data(Vec::new())), TransferAction::Finish));
    assert_eq!(transfer.descriptor().bytes_transferred, 0);
}

#[test]
fn upload_of_what_is_no_file_is_turned_down() {
    let (transfer, action) = handle_upload("/tmp/dir", false, "/home/u/in");
    assert!(matches!(
        action,
        TransferAction::Abort { error: RsshError::NotAFile { ref path } } if path == "/tmp/dir"
    ));
    assert!(transfer.is_finished());
    assert!(!transfer.is_done());
}

#[test]
fn upload_of_a_path_without_base_name_is_turned_down() {
    for path in ["/", "", "..", "dir/.."] {
        let (_, action) = handle_upload(path, true, "/home/u/in");
        assert!(matches!(
            action,
            TransferAction::Abort { error: RsshError::NotAFile { path: ref shown } } if shown == path
        ));
    }
}

#[test]
fn download_into_an_existing_file_is_turned_down_first_of_all() {
    let (mut transfer, action) = handle_download("/var/log/syslog", "/tmp/file.txt", true);
    assert!(matches!(
        action,
        TransferAction::Abort { error: RsshError::DestinationIsFile { ref path } }
            if path == "/tmp/file.txt"
    ));
    assert!(transfer.is_finished());
    assert!(matches!(
        transfer.step(TransferEvent::Done),
        TransferAction::Abort { error: RsshError::DestinationIsFile { .. } }
    ));
}

#[test]
fn download_of_a_path_without_base_name_is_turned_down() {
    for path in ["/", "", "/home/u/..", "."] {
        let (_, action) = handle_download(path, "/tmp", false);
        assert!(matches!(
            action,
            TransferAction::Abort { error: RsshError::InvalidRemotePath { path: ref shown } }
                if shown == path
        ));
    }
}

#[test]
fn remote_path_is_looked_at_before_the_local_destination() {
    let (_, action) = handle_download("/", "/tmp/file.txt", true);
    assert!(matches!(action, TransferAction::Abort { error: RsshError::InvalidRemotePath { .. } }));
}

#[test]
fn download_is_set_up_step_by_step() {
    let (mut transfer, action) = handle_download("/var/log/syslog", "/tmp/logs", false);
    assert!(matches!(action, TransferAction::CreateLocalDir { ref path } if path == "/tmp/logs"));
    assert_eq!(transfer.descriptor().local_path, "/tmp/logs/syslog");
    assert_eq!(transfer.descriptor().remote_path, "/var/log/syslog");
    assert_eq!(transfer.descriptor().direction, Direction::Download);
    assert!(matches!(transfer.step(TransferEvent::Done), TransferAction::OpenSftp));
    let action = transfer.step(TransferEvent::Done);
    assert!(matches!(action, TransferAction::OpenSource { ref path } if path == "/var/log/syslog"));
    assert!(matches!(transfer.step(TransferEvent::Done), TransferAction::StatSource));
    let action = transfer.step(TransferEvent::Size(Some(77)));
    assert!(matches!(
        action,
        TransferAction::CreateDestination { ref path } if path == "/tmp/logs/syslog"
    ));
    assert_eq!(transfer.descriptor().total_bytes, 77);
    assert!(matches!(transfer.step(TransferEvent::Done), TransferAction::Read { capacity: 8192 }));
}

#[test]
fn download_of_unknown_size_counts_from_a_total_of_zero() {
    let (mut transfer, _) = handle_download("/var/log/syslog", "/tmp/logs", false);
    transfer.step(TransferEvent::Done);
    transfer.step(TransferEvent::Done);
    transfer.step(TransferEvent::Done);
    transfer.step(TransferEvent::Size(None));
    assert_eq!(transfer.descriptor().total_bytes, 0);
    transfer.step(TransferEvent::Done);
    transfer.step(TransferEvent::Data(vec![9u8; 5]));
    transfer.step(TransferEvent::Done);
    assert_eq!(transfer.descriptor().bytes_transferred, 5);
    assert_eq!(transfer.descriptor().total_bytes, 0);
}

#[test]
fn failure_while_reading_ends_the_transfer() {
    let mut transfer = uploading(100);
    transfer.step(TransferEvent::Data(vec![0u8; 50]));
    transfer.step(TransferEvent::Done);
    let action = transfer.step(failed("read error"));
    assert!(is_transfer_failed(&action, "read error"));
    assert!(transfer.is_finished());
    assert!(!transfer.is_done());
    assert_eq!(transfer.descriptor().bytes_transferred, 50);
}

#[test]
fn failure_while_writing_ends_the_transfer() {
    let mut transfer = uploading(100);
    transfer.step(TransferEvent::Data(vec![0u8; 50]));
    let action = transfer.step(failed("disk full"));
    assert!(is_transfer_failed(&action, "disk full"));
    assert_eq!(transfer.descriptor().bytes_transferred, 0);
    assert!(is_transfer_failed(&transfer.step(TransferEvent::Done), "disk full"));
}

#[test]
fn failure_while_setting_up_ends_the_transfer() {
    let (mut transfer, _) = handle_upload("report.txt", true, "/home/u/in");
    let action = transfer.step(failed("permission denied"));
    assert!(is_transfer_failed(&action, "permission denied"));

    let (mut transfer, _) = handle_download("/var/log/syslog", "/tmp/logs", false);
    transfer.step(TransferEvent::Done);
    let action = transfer.step(failed("no sftp"));
    assert!(is_transfer_failed(&action, "no sftp"));
}

#[test]
fn event_that_answers_nothing_ends_the_transfer() {
    let mut transfer = uploading(1);
    let action = transfer.step(TransferEvent::Done);
    assert!(is_transfer_failed(&action, "unexpected event"));
}

#[test]
fn transfer_that_is_complete_stays_complete() {
    let mut transfer = uploading(0);
    transfer.step(TransferEvent::Data(Vec::new()));
    for _ in 0..3 {
        assert!(matches!(transfer.step(TransferEvent::Data(vec![1])), TransferAction::Finish));
        assert_eq!(transfer.descriptor().bytes_transferred, 0);
    }
}
