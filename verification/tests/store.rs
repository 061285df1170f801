use layout_store::error::StoreErrorKind;
use layout_store::store::{
    get_layout_file_path, load_layout_from_disk, save_layout_to_disk, Disk,
};

fn fresh(base: &str) -> Disk {
    Disk {
        data_dir: Some(base.to_string()),
        subfolder_exists: false,
        create_error: None,
        write_error: None,
        read_error: None,
        file: None,
    }
}

#[test]
fn fresh_load_returns_empty() {
    let mut d = fresh("/home/user/.local/share");
    let r = load_layout_from_disk(&mut d);
    assert_eq!(r.unwrap(), "");
    assert!(d.subfolder_exists);
}

#[test]
fn save_then_load_returns_saved_json() {
    let mut d = fresh("/home/user/.local/share");
    save_layout_to_disk(&mut d, "{\"a\":1}".to_string()).unwrap();
    let r = load_layout_from_disk(&mut d);
    assert_eq!(r.unwrap(), "{\"a\":1}");
}

#[test]
fn two_saves_load_returns_last() {
    let mut d = fresh("/base");
    save_layout_to_disk(&mut d, "first".to_string()).unwrap();
    save_layout_to_disk(&mut d, "second".to_string()).unwrap();
    let r = load_layout_from_disk(&mut d);
    assert_eq!(r.unwrap(), "second");
}

#[test]
fn repeated_saves_keep_succeeding() {
    let mut d = fresh("/base");
    save_layout_to_disk(&mut d, "one".to_string()).unwrap();
    assert!(d.subfolder_exists);
    save_layout_to_disk(&mut d, "two".to_string()).unwrap();
    save_layout_to_disk(&mut d, "three".to_string()).unwrap();
    assert_eq!(load_layout_from_disk(&mut d).unwrap(), "three");
}

#[test]
fn create_denied_save_errors_and_file_unchanged() {
    let mut d = fresh("/base");
    d.create_error = Some("permission denied".to_string());
    d.file = Some("old".to_string());
    let r = save_layout_to_disk(&mut d, "new".to_string());
    let e = r.unwrap_err();
    assert_eq!(e.kind, StoreErrorKind::DirectoryResolution);
    assert_eq!(e.message, "Failed to create app data dir: permission denied");
    assert_eq!(d.file, Some("old".to_string()));
    assert!(!d.subfolder_exists);
}

#[test]
fn no_data_dir_fails_save_and_load() {
    let mut d = fresh("/base");
    d.data_dir = None;
    let e = save_layout_to_disk(&mut d, "x".to_string()).unwrap_err();
    assert_eq!(e.kind, StoreErrorKind::DirectoryResolution);
    assert_eq!(e.message, "Could not find platform local data directory");
    let e = load_layout_from_disk(&mut d).unwrap_err();
    assert_eq!(e.kind, StoreErrorKind::DirectoryResolution);
    assert_eq!(e.message, "Could not find platform local data directory");
}

#[test]
fn write_denied_save_errors_and_file_unchanged() {
    let mut d = fresh("/base");
    d.write_error = Some("disk full".to_string());
    d.file = Some("old".to_string());
    let e = save_layout_to_disk(&mut d, "new".to_string()).unwrap_err();
    assert_eq!(e.kind, StoreErrorKind::Io);
    assert_eq!(
        e.message,
        "Failed to write file /base/ss-graph-tool/nodePositions.json: disk full"
    );
    assert_eq!(d.file, Some("old".to_string()));
}

#[test]
fn read_denied_load_errors() {
    let mut d = fresh("/base");
    d.read_error = Some("permission denied".to_string());
    let e = load_layout_from_disk(&mut d).unwrap_err();
    assert_eq!(e.kind, StoreErrorKind::Io);
    assert_eq!(
        e.message,
        "Failed to read file /base/ss-graph-tool/nodePositions.json: permission denied"
    );
}

#[test]
fn path_resolution_creates_subfolder_once() {
    let mut d = fresh("/base");
    let p = get_layout_file_path(&mut d).unwrap();
    assert_eq!(p, "/base/ss-graph-tool/nodePositions.json");
    assert!(d.subfolder_exists);
    let p2 = get_layout_file_path(&mut d).unwrap();
    assert_eq!(p2, p);
}
