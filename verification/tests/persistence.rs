use recorder_core::persist::{persist_error, recording_path, recordings_dir, PersistStep};

#[test]
fn recordings_dir_is_under_app_data() {
    assert_eq!(recordings_dir("/home/user/.data/app"), "/home/user/.data/app/recordings");
}

#[test]
fn recording_path_is_dir_then_filename() {
    assert_eq!(
        recording_path("/home/user/.data/app", "r.webm"),
        "/home/user/.data/app/recordings/r.webm"
    );
}

#[test]
fn recording_path_extends_recordings_dir() {
    let base = "/data/app";
    let dir = recordings_dir(base);
    let path = recording_path(base, "take-2.webm");
    assert_eq!(path, format!("{}/take-2.webm", dir));
}

#[test]
fn persist_error_names_the_failing_step() {
    assert_eq!(
        persist_error(PersistStep::ResolveAppDataDir, "unsupported platform"),
        "Failed to resolve AppData dir: unsupported platform"
    );
    assert_eq!(
        persist_error(PersistStep::CreateRecordingsDir, "permission denied"),
        "Failed to create recordings dir: permission denied"
    );
    assert_eq!(
        persist_error(PersistStep::CreateFile, "is a directory"),
        "Failed to create file: is a directory"
    );
    assert_eq!(
        persist_error(PersistStep::WriteFile, "no space left"),
        "Failed to write file content: no space left"
    );
}
