use bootty_app::config::color_hex;
use bootty_app::handoff::{local_file_handoff, LocalFileHandoff};

#[test]
fn local_file_handoff_is_typed_and_non_mutating_on_rejection() {
    assert_eq!(
        local_file_handoff(0, true, None),
        LocalFileHandoff::Rejected("file handoff ignored: no local files")
    );
    assert_eq!(
        local_file_handoff(1, false, Some("/definitely/missing/bootty-handoff".to_owned())),
        LocalFileHandoff::Rejected("file handoff rejected: local path is unavailable")
    );
    assert!(matches!(
        local_file_handoff(1, true, Some("/tmp/file".to_owned())),
        LocalFileHandoff::Ready(_)
    ));
    assert_eq!(
        local_file_handoff(2, true, None),
        LocalFileHandoff::Rejected("file handoff rejected: unsupported local path")
    );
}

#[test]
fn colors_are_written_as_lower_case_hex() {
    assert_eq!(color_hex(0x1e, 0x1e, 0x2e), "#1e1e2e");
    assert_eq!(color_hex(255, 0, 171), "#ff00ab");
    assert_eq!(color_hex(0, 0, 0), "#000000");
}
