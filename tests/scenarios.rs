use cfg_watcher::detect::{BatchReport, ChangeDetector, ChangeKind, FsEvent};
use cfg_watcher::reload::ReloadLoop;
use cfg_watcher::{Error, UpdateEvent};
use config::{Config, File, FileFormat};

const FILE: &str = "/srv/app/config.json";

#[derive(Clone, Debug, PartialEq)]
struct AppConfig {
    address: String,
    port: i64,
}

/// Decodes JSON content as the watcher's loader does, into the test's type.
fn decode(content: &str) -> Result<AppConfig, Error> {
    let cfg = Config::builder()
        .add_source(File::from_str(content, FileFormat::Json))
        .build()
        .map_err(|e| Error::ParseError(e.to_string()))?;
    let address = cfg.get_string("address").map_err(|e| Error::ParseError(e.to_string()))?;
    let port = cfg.get_int("port").map_err(|e| Error::ParseError(e.to_string()))?;
    Ok(AppConfig { address, port })
}

fn modify() -> FsEvent {
    FsEvent { kind: ChangeKind::Modify, path: FILE.to_string(), target: Some(FILE.to_string()) }
}

#[test]
fn port_change_is_delivered_as_old_and_new() {
    let initial = decode(r#"{"address":"127.0.0.1","port":8080}"#).ok().expect("initial parse");
    assert_eq!(initial, AppConfig { address: "127.0.0.1".to_string(), port: 8080 });
    let mut detector = ChangeDetector::new(FILE.to_string(), FILE.to_string());
    let mut state = ReloadLoop::new(initial);

    let report = detector.observe_batch(&vec![modify()]);
    assert_eq!(report, BatchReport { reload: true, target_missing: false });
    assert!(state.on_change());
    let update = state.on_loaded(decode(r#"{"address":"127.0.0.1","port":9090}"#));
    let UpdateEvent(old, new) = update.expect("one update");
    assert_eq!(old, AppConfig { address: "127.0.0.1".to_string(), port: 8080 });
    assert_eq!(new, AppConfig { address: "127.0.0.1".to_string(), port: 9090 });
}

#[test]
fn invalid_then_valid_write_delivers_one_update() {
    let initial = decode(r#"{"address":"127.0.0.1","port":8080}"#).ok().expect("initial parse");
    let mut detector = ChangeDetector::new(FILE.to_string(), FILE.to_string());
    let mut state = ReloadLoop::new(initial);

    // The invalid write lands in its own window and is absorbed.
    assert!(detector.observe_batch(&vec![modify()]).reload);
    assert!(state.on_change());
    let broken = decode(r#"{"address":"127.0.0.1","port":"#);
    assert!(matches!(broken, Err(Error::ParseError(_))));
    assert!(state.on_loaded(broken).is_none());

    // The valid write that follows is delivered, against the last good value.
    assert!(detector.observe_batch(&vec![modify()]).reload);
    assert!(state.on_change());
    let UpdateEvent(old, new) =
        state.on_loaded(decode(r#"{"address":"10.0.0.1","port":8080}"#)).expect("one update");
    assert_eq!(old.address, "127.0.0.1");
    assert_eq!(new.address, "10.0.0.1");
}
