use desktop_shell::{
    finish_secrets_path, launch_request, launcher_of, secrets_dir, secrets_path_text, selection_from_texts,
    selection_result, spawn_outcome, CommandError, OsFamily,
};

fn bytes(s: &str) -> Vec<u8> {
    s.as_bytes().to_vec()
}

#[test]
fn secrets_dir_under_app_data_root() {
    let dir = secrets_dir(OsFamily::Linux, Some(bytes("/home/u/.app"))).unwrap();
    assert_eq!(dir, bytes("/home/u/.app/secrets"));
    let text = secrets_path_text(Ok(()), &dir).unwrap();
    assert_eq!(text, "/home/u/.app/secrets");
}

#[test]
fn secrets_dir_after_trailing_separator() {
    let dir = secrets_dir(OsFamily::Linux, Some(bytes("/home/u/.app/"))).unwrap();
    assert_eq!(dir, bytes("/home/u/.app/secrets"));
}

#[test]
fn secrets_dir_of_empty_base() {
    let dir = secrets_dir(OsFamily::MacOs, Some(Vec::new())).unwrap();
    assert_eq!(dir, bytes("secrets"));
}

#[test]
fn secrets_dir_on_windows() {
    let dir = secrets_dir(OsFamily::Windows, Some(bytes("C:\\Users\\u\\AppData\\app"))).unwrap();
    assert_eq!(dir, bytes("C:\\Users\\u\\AppData\\app\\secrets"));
    let dir = secrets_dir(OsFamily::Windows, Some(bytes("C:/data/"))).unwrap();
    assert_eq!(dir, bytes("C:/data/secrets"));
}

#[test]
fn secrets_dir_unresolved() {
    let r = secrets_dir(OsFamily::Linux, None);
    assert_eq!(r, Err(CommandError::PathResolution));
    assert_eq!(CommandError::PathResolution.message(), "Failed to get app data dir");
}

#[test]
fn secrets_path_same_on_second_call() {
    let first = secrets_dir(OsFamily::Linux, Some(bytes("/home/u/.app"))).unwrap();
    let second = secrets_dir(OsFamily::Linux, Some(bytes("/home/u/.app"))).unwrap();
    let a = secrets_path_text(Ok(()), &first).unwrap();
    let b = secrets_path_text(Ok(()), &second).unwrap();
    assert_eq!(a, b);
}

#[test]
fn secrets_path_creation_failure() {
    let dir = bytes("/root/secrets");
    let r = secrets_path_text(Err("Permission denied (os error 13)".to_string()), &dir);
    let e = r.unwrap_err();
    assert_eq!(e, CommandError::Io("Permission denied (os error 13)".to_string()));
    assert_eq!(e.message(), "Failed to create secrets directory: Permission denied (os error 13)");
}

#[test]
fn secrets_path_not_text() {
    let mut dir = bytes("/home/");
    dir.push(0xff);
    dir.extend_from_slice(b"/secrets");
    let e = secrets_path_text(Ok(()), &dir).unwrap_err();
    assert_eq!(e, CommandError::Encoding);
    assert_eq!(e.message(), "Failed to convert path to string");
}

#[test]
fn secrets_path_non_ascii_text() {
    let dir = bytes("/home/zoë/secrets");
    assert_eq!(secrets_path_text(Ok(()), &dir).unwrap(), "/home/zoë/secrets");
}

#[test]
fn finish_secrets_path_cases() {
    assert_eq!(finish_secrets_path(Ok(()), Some("/a/secrets".to_string())), Ok("/a/secrets".to_string()));
    assert_eq!(finish_secrets_path(Ok(()), None), Err(CommandError::Encoding));
    assert_eq!(
        finish_secrets_path(Err("disk full".to_string()), Some("/a/secrets".to_string())),
        Err(CommandError::Io("disk full".to_string()))
    );
}

#[test]
fn open_folder_on_linux() {
    let q = launch_request(OsFamily::Linux, "/tmp/x".to_string()).unwrap();
    assert_eq!(q.program, "xdg-open");
    assert_eq!(q.args, vec!["/tmp/x".to_string()]);
    assert_eq!(spawn_outcome(Ok(())), Ok(()));
}

#[test]
fn open_folder_with_empty_path() {
    let q = launch_request(OsFamily::Linux, String::new()).unwrap();
    assert_eq!(q.program, "xdg-open");
    assert_eq!(q.args, vec![String::new()]);
}

#[test]
fn launchers_per_family() {
    assert_eq!(launcher_of(OsFamily::Windows), Some("explorer".to_string()));
    assert_eq!(launcher_of(OsFamily::MacOs), Some("open".to_string()));
    assert_eq!(launcher_of(OsFamily::Linux), Some("xdg-open".to_string()));
    assert_eq!(launcher_of(OsFamily::Other), None);
    assert!(launch_request(OsFamily::Other, "/tmp/x".to_string()).is_none());
    let q = launch_request(OsFamily::Windows, "C:\\x".to_string()).unwrap();
    assert_eq!(q.program, "explorer");
    assert_eq!(q.args, vec!["C:\\x".to_string()]);
}

#[test]
fn spawn_failure() {
    let e = spawn_outcome(Err("No such file or directory (os error 2)".to_string())).unwrap_err();
    assert_eq!(e, CommandError::Spawn("No such file or directory (os error 2)".to_string()));
    assert_eq!(e.message(), "No such file or directory (os error 2)");
}

#[test]
fn selection_cancelled() {
    let e = selection_result(None).unwrap_err();
    assert_eq!(e, CommandError::NoSelection);
    assert_eq!(e.message(), "No files selected");
    assert_eq!(selection_result(Some(Vec::new())), Err(CommandError::NoSelection));
}

#[test]
fn selection_drops_paths_that_are_not_text() {
    let mut bad1 = bytes("/home/u/");
    bad1.push(0xfe);
    let bad2 = vec![0xc3u8, 0x28];
    let picked = vec![bytes("/a.txt"), bad1, bytes("/b.txt"), bad2, bytes("/c/d.md")];
    let r = selection_result(Some(picked)).unwrap();
    assert_eq!(r, vec!["/a.txt".to_string(), "/b.txt".to_string(), "/c/d.md".to_string()]);
}

#[test]
fn selection_of_only_invalid_paths() {
    let r = selection_result(Some(vec![vec![0xffu8]])).unwrap();
    assert!(r.is_empty());
}

#[test]
fn selection_from_texts_keeps_order() {
    let r = selection_from_texts(Some(vec![Some("/z".to_string()), None, Some("/a".to_string())])).unwrap();
    assert_eq!(r, vec!["/z".to_string(), "/a".to_string()]);
    assert_eq!(selection_from_texts(None), Err(CommandError::NoSelection));
}
