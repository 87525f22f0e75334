use rust_cli_release::{private_mode, Error, LockedJsonStore, SecureDir};

#[test]
fn discovery_prefers_the_override() {
    let dir = SecureDir::discover("tool", Some(b"/tmp/store".to_vec()), None).unwrap();
    assert_eq!(dir.root(), b"/tmp/store");
}

#[test]
fn discovery_uses_a_dot_directory_in_home() {
    let dir = SecureDir::discover("tool", None, Some(b"/home/me".to_vec())).unwrap();
    assert_eq!(dir.root(), b"/home/me/.tool");
    let dir = SecureDir::discover("tool", None, Some(b"/home/me/".to_vec())).unwrap();
    assert_eq!(dir.root(), b"/home/me/.tool");
    match SecureDir::discover("tool", None, None) {
        Err(Error::Configuration(message)) => {
            assert_eq!(message, "could not determine the home directory")
        }
        other => panic!("unexpected {other:?}"),
    }
}

#[test]
fn names_resolve_inside_the_directory() {
    let dir = SecureDir::discover("tool", Some(b"/tmp/store".to_vec()), None).unwrap();
    assert_eq!(dir.path("value.txt"), b"/tmp/store/value.txt");
    assert_eq!(dir.path("/etc/passwd"), b"/etc/passwd");
}

#[test]
fn json_stores_lock_beside_their_document() {
    let dir = SecureDir::discover("tool", Some(b"/tmp/store".to_vec()), None).unwrap();
    let store: LockedJsonStore<u32> = LockedJsonStore::new(dir, "counters.json".to_string());
    assert_eq!(store.file_name(), "counters.json");
    assert_eq!(store.lock_name(), ".counters.json.lock");
    assert_eq!(store.dir().root(), b"/tmp/store");
    match store.decode_failure("expected value at line 1") {
        Error::Configuration(message) => {
            assert_eq!(message, "invalid counters.json: expected value at line 1")
        }
        other => panic!("unexpected {other:?}"),
    }
}

#[test]
fn private_modes_are_owner_only() {
    assert_eq!(private_mode(true), 0o700);
    assert_eq!(private_mode(false), 0o600);
}

#[test]
fn paths_keep_bytes_that_are_not_utf8() {
    let root = b"/tmp/st\xffre".to_vec();
    let dir = SecureDir::discover("tool", Some(root.clone()), None).unwrap();
    assert_eq!(dir.root(), root.as_slice());
    assert_eq!(dir.path("value.txt"), b"/tmp/st\xffre/value.txt");
    let dir = SecureDir::discover("tool", None, Some(b"/home/m\xe9".to_vec())).unwrap();
    assert_eq!(dir.root(), b"/home/m\xe9/.tool");
}
