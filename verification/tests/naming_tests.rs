use snapshotter::args::Args;
use snapshotter::compression::archive_name;
use snapshotter::logging::LoggingFeature;
use snapshotter::permissions::{
    check_source_permissions, check_target_permissions, PermissionCache,
};
use snapshotter::wildcards::extension_of;
use snapshotter::{
    backup_dir_name, dec_string, format_timestamp, timestamped_backup_name, BackupError,
    PermissionType, TimeParts,
};

#[test]
fn decimal_rendering() {
    assert_eq!(dec_string(0), "0");
    assert_eq!(dec_string(7), "7");
    assert_eq!(dec_string(10), "10");
    assert_eq!(dec_string(12345), "12345");
}

#[test]
fn timestamp_format_exact() {
    let t = TimeParts { year: 2024, month: 3, day: 7, hour: 9, minute: 30, second: 5 };
    assert_eq!(format_timestamp(&t), "2024-03-07T09-30-05");
}

#[test]
fn timestamp_format_padding() {
    let t = TimeParts { year: 1, month: 1, day: 1, hour: 0, minute: 0, second: 0 };
    assert_eq!(format_timestamp(&t), "0001-01-01T00-00-00");
    let wide = TimeParts { year: 12345, month: 12, day: 31, hour: 23, minute: 59, second: 59 };
    assert_eq!(format_timestamp(&wide), "12345-12-31T23-59-59");
}

#[test]
fn backup_dir_name_joins_with_underscore() {
    let name = backup_dir_name(&String::from("photos"), &String::from("2024-03-07T09-30-05"));
    assert_eq!(name, "photos_2024-03-07T09-30-05");
}

#[test]
fn timestamped_name_has_expected_shape() {
    let name = timestamped_backup_name(&String::from("photos"));
    assert!(name.starts_with("photos_"));
    let stamp = &name["photos_".len()..];
    assert!(stamp.contains('T'));
    assert!(stamp.len() >= 19);
}

#[test]
fn archive_name_appends_suffix() {
    assert_eq!(archive_name(&String::from("/t/photos_x")), "/t/photos_x.tar.gz");
}

#[test]
fn extension_of_cases() {
    assert_eq!(extension_of(&String::from("x.tmp")), Some(String::from("tmp")));
    assert_eq!(extension_of(&String::from("archive.tar.gz")), Some(String::from("gz")));
    assert_eq!(extension_of(&String::from("noext")), None);
    assert_eq!(extension_of(&String::from(".hidden")), None);
    assert_eq!(extension_of(&String::from("trailing.")), Some(String::from("")));
}

#[test]
fn copy_message_shape() {
    let m = LoggingFeature::copy_message(&String::from("/s/a"), &String::from("/d/a"));
    assert_eq!(m, "Copying /s/a to /d/a");
}

#[test]
fn parse_and_validate() {
    let ok = Args::parse_and_validate(
        String::from("/src"),
        String::from("/dst"),
        true,
        false,
        false,
        true,
        2,
    )
    .unwrap();
    assert_eq!(ok.source_dir, "/src");
    assert_eq!(ok.target_dir, "/dst");
    assert!(ok.compress);
    assert!(!ok.incremental);
    assert!(!ok.dry_run);
    assert!(ok.verify);
    assert_eq!(ok.threads, 2);

    let err = Args::parse_and_validate(
        String::from("/src"),
        String::from("/dst"),
        false,
        false,
        false,
        false,
        0,
    );
    match err {
        Err(BackupError::InvalidThreads(m)) => {
            assert_eq!(m, "Number of threads must be greater than 0")
        }
        _ => panic!("expected an invalid thread count error"),
    }
}

#[test]
fn error_messages() {
    assert_eq!(BackupError::SizeMismatch.message(), "File size mismatch");
    assert_eq!(BackupError::HashMismatch.message(), "Integrity check failed");
    assert_eq!(
        BackupError::SourceNotFound(String::from("/gone")).message(),
        "Source directory '/gone' does not exist"
    );
    assert_eq!(
        BackupError::PermissionDenied {
            path: String::from("/locked"),
            permission: PermissionType::Write,
        }
        .message(),
        "No write permission for '/locked'"
    );
    assert_eq!(BackupError::Io(String::from("broken pipe")).message(), "I/O error: broken pipe");
}

#[test]
fn source_permission_verdicts() {
    let p = String::from("/src");
    assert!(check_source_permissions(&p, true, 0o700).is_ok());
    assert!(matches!(
        check_source_permissions(&p, false, 0o700),
        Err(BackupError::SourceNotFound(_))
    ));
    assert!(matches!(
        check_source_permissions(&p, true, 0o300),
        Err(BackupError::PermissionDenied { permission: PermissionType::Read, .. })
    ));
    assert!(matches!(
        check_source_permissions(&p, true, 0o600),
        Err(BackupError::PermissionDenied { permission: PermissionType::Execute, .. })
    ));
}

#[test]
fn target_permission_verdicts() {
    let p = String::from("/dst");
    assert!(check_target_permissions(&p, None).is_ok());
    assert!(check_target_permissions(&p, Some(0o700)).is_ok());
    assert!(matches!(
        check_target_permissions(&p, Some(0o500)),
        Err(BackupError::PermissionDenied { permission: PermissionType::Write, .. })
    ));
    assert!(matches!(
        check_target_permissions(&p, Some(0o600)),
        Err(BackupError::PermissionDenied { permission: PermissionType::Execute, .. })
    ));
}

#[test]
fn permission_cache_memoizes_first_verdict() {
    let mut cache = PermissionCache::new();
    let p = String::from("/src");
    assert!(cache.lookup(&p).is_none());
    cache.record(&p, Ok(()));
    assert!(matches!(cache.lookup(&p), Some(Ok(()))));
    cache.record(&p, Err(BackupError::SourceNotFound(String::from("/src"))));
    assert!(matches!(cache.lookup(&p), Some(Ok(()))));
}
