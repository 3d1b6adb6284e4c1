use designer_helper::error::HelperError;
use designer_helper::handoff::handoff_line;
use designer_helper::launch::{designer_location, server_args};

#[test]
fn handoff_line_is_the_path_and_one_line_feed() {
    let line = handoff_line("example.ui");
    assert_eq!(line, "example.ui\n");
    assert_eq!(line.matches('\n').count(), 1);
}

#[test]
fn handoff_line_of_empty_path() {
    assert_eq!(handoff_line(""), "\n");
}

#[test]
fn designer_location_prefers_the_repository_copy() {
    let path = designer_location(Some("C:\\work\\proj"), Some("C:\\Qt"));
    assert_eq!(path, Ok("C:\\work\\proj\\Client\\3rd\\qt\\bin\\designer.exe".to_string()));
}

#[test]
fn designer_location_falls_back_to_qt_dir() {
    let path = designer_location(None, Some("C:\\Qt\\5.12"));
    assert_eq!(path, Ok("C:\\Qt\\5.12\\bin\\designer.exe".to_string()));
}

#[test]
fn designer_location_without_any_root_is_not_found() {
    assert_eq!(designer_location(None, None), Err(HelperError::ExecutableNotFound));
}

#[test]
fn error_messages_are_distinct_and_nonempty() {
    let all = [
        HelperError::InvalidInput,
        HelperError::PersistReadCorrupt,
        HelperError::ExecutableNotFound,
        HelperError::SpawnFailed,
        HelperError::AnnouncementUnreadable,
        HelperError::AnnouncementTimeout,
        HelperError::MalformedPort,
        HelperError::PersistWriteFailed,
    ];
    for (i, a) in all.iter().enumerate() {
        assert!(!a.message().is_empty());
        for b in all.iter().skip(i + 1) {
            assert_ne!(a.message(), b.message());
        }
    }
    assert_eq!(HelperError::InvalidInput.message(), "invalid work item: no such file");
}

#[test]
fn server_args_are_the_server_flag_then_the_work_item() {
    assert_eq!(server_args("forms/example.ui"), vec!["--server".to_string(), "forms/example.ui".to_string()]);
}
