use cfg_watcher::paths::{resolve_watch_paths, watch_paths_from_absolute, watch_paths_from_parts};
use cfg_watcher::Error;

#[test]
fn parts_with_a_parent() {
    let w = watch_paths_from_parts("/etc/app/config.json".to_string(), Some("/etc/app".to_string()))
        .ok()
        .expect("paths");
    assert_eq!(w.file, "/etc/app/config.json");
    assert_eq!(w.dir, "/etc/app");
}

#[test]
fn parts_without_a_parent() {
    match watch_paths_from_parts("/".to_string(), None) {
        Err(Error::ResolutionError(m)) => assert_eq!(m, "/"),
        _ => panic!("expected a resolution error"),
    }
    match watch_paths_from_parts("config.json".to_string(), Some(String::new())) {
        Err(Error::ResolutionError(m)) => assert_eq!(m, "config.json"),
        _ => panic!("expected a resolution error"),
    }
}

#[test]
fn absolute_path_is_split_at_its_parent() {
    let w = watch_paths_from_absolute("/etc/app/config.json".to_string()).ok().expect("paths");
    assert_eq!(w.file, "/etc/app/config.json");
    assert_eq!(w.dir, "/etc/app");
}

#[test]
fn root_has_no_directory_to_watch() {
    assert!(matches!(watch_paths_from_absolute("/".to_string()), Err(Error::ResolutionError(_))));
}

#[test]
fn relative_path_is_made_absolute() {
    let w = resolve_watch_paths("config.json").ok().expect("paths");
    assert!(w.file.starts_with('/'));
    assert!(w.file.ends_with("/config.json"));
    assert_eq!(format!("{}/config.json", w.dir), w.file);
}

#[test]
fn empty_path_is_refused() {
    match resolve_watch_paths("") {
        Err(e) => {
            assert!(matches!(e, Error::ResolutionError(_)));
            assert!(!e.message().is_empty());
        }
        Ok(_) => panic!("an empty path cannot be resolved"),
    }
}

#[test]
fn error_message_is_its_text() {
    assert_eq!(Error::ParseError("bad".to_string()).message(), "bad");
    assert_eq!(Error::IoError("gone".to_string()).message(), "gone");
    assert_eq!(Error::ResolutionError("/".to_string()).message(), "/");
}

#[test]
fn absolute_path_is_kept_and_split() {
    let w = resolve_watch_paths("/srv/app/config.yaml").ok().expect("paths");
    assert_eq!(w.file, "/srv/app/config.yaml");
    assert_eq!(w.dir, "/srv/app");
}
