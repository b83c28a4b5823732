use std::collections::HashMap;
use system76_firmware_daemon::cache::{StoreReply, StoreRequest};
use system76_firmware_daemon::error::{Error, ErrorKind};
use system76_firmware_daemon::release::{firmware_file, Payloads, ReleaseRequest, UPDATER_FILE};

fn digest(data: &[u8]) -> String {
    buildchain::Sha384::new(data).unwrap().to_base32()
}

fn manifest(files: &[(&str, &str)]) -> Vec<u8> {
    let mut map = serde_json::Map::new();
    for (name, digest) in files {
        map.insert(name.to_string(), serde_json::Value::String(digest.to_string()));
    }
    let mut document = serde_json::Map::new();
    document.insert("time".to_string(), serde_json::Value::from(1u64));
    document.insert("files".to_string(), serde_json::Value::Object(map));
    serde_json::to_vec(&serde_json::Value::Object(document)).unwrap()
}

struct Store {
    local: HashMap<String, Vec<u8>>,
    remote: HashMap<String, Vec<u8>>,
    log: Vec<String>,
}

impl Store {
    fn new() -> Store {
        Store { local: HashMap::new(), remote: HashMap::new(), log: Vec::new() }
    }

    fn perform(&mut self, request: StoreRequest) -> StoreReply {
        match request {
            StoreRequest::Read { digest } => {
                self.log.push(format!("read {}", digest));
                StoreReply::Read(self.local.get(digest).cloned())
            },
            StoreRequest::Fetch { digest } => {
                self.log.push(format!("fetch {}", digest));
                StoreReply::Fetched(
                    self.remote.get(digest).cloned().ok_or(format!("failed to download {}", digest)),
                )
            },
            StoreRequest::Write { digest, bytes } => {
                self.log.push(format!("write {}", digest));
                self.local.insert(digest.to_string(), bytes.to_vec());
                StoreReply::Written(Ok(()))
            },
        }
    }
}

fn resolve(mut release: ReleaseRequest, store: &mut Store) -> Result<Payloads, Error> {
    loop {
        release = match release.outcome() {
            Ok(answer) => return answer,
            Err(release) => release,
        };
        let reply = store.perform(release.pending().unwrap());
        release = release.step(reply);
    }
}

#[test]
fn firmware_file_appends_the_suffix() {
    assert_eq!(firmware_file("galp3_abc"), "galp3_abc.tar.xz");
    assert_eq!(firmware_file(""), ".tar.xz");
    assert_eq!(UPDATER_FILE, "system76-firmware-update.tar.xz");
}

#[test]
fn release_is_resolved_from_local_storage() {
    let document = manifest(&[(UPDATER_FILE, &digest(b"updater")), ("id.tar.xz", &digest(b"firmware"))]);
    let root = digest(&document);
    let mut store = Store::new();
    store.local.insert(root.clone(), document);
    store.local.insert(digest(b"updater"), b"updater".to_vec());
    store.local.insert(digest(b"firmware"), b"firmware".to_vec());
    let release = ReleaseRequest::begin(root.clone(), "id.tar.xz".to_string(), false);
    let payloads = resolve(release, &mut store).unwrap();
    assert_eq!(payloads.updater, b"updater");
    assert_eq!(payloads.firmware, b"firmware");
    assert_eq!(
        store.log,
        vec![
            format!("read {}", root),
            format!("read {}", digest(b"updater")),
            format!("read {}", digest(b"firmware")),
        ]
    );
}

#[test]
fn release_is_fetched_into_the_cache() {
    let document = manifest(&[(UPDATER_FILE, &digest(b"updater")), ("id.tar.xz", &digest(b"firmware"))]);
    let root = digest(&document);
    let mut store = Store::new();
    store.remote.insert(root.clone(), document.clone());
    store.local.insert(digest(b"updater"), b"updater".to_vec());
    store.remote.insert(digest(b"firmware"), b"firmware".to_vec());
    let release = ReleaseRequest::begin(root.clone(), "id.tar.xz".to_string(), true);
    let payloads = resolve(release, &mut store).unwrap();
    assert_eq!(payloads.updater, b"updater");
    assert_eq!(payloads.firmware, b"firmware");
    assert_eq!(store.local.get(&root), Some(&document));
    assert_eq!(store.local.get(&digest(b"firmware")), Some(&b"firmware".to_vec()));
    assert_eq!(
        store.log,
        vec![
            format!("read {}", root),
            format!("fetch {}", root),
            format!("write {}", root),
            format!("read {}", digest(b"updater")),
            format!("read {}", digest(b"firmware")),
            format!("fetch {}", digest(b"firmware")),
            format!("write {}", digest(b"firmware")),
        ]
    );
}

#[test]
fn release_without_remote_needs_everything_local() {
    let document = manifest(&[(UPDATER_FILE, &digest(b"updater")), ("id.tar.xz", &digest(b"firmware"))]);
    let root = digest(&document);
    let mut store = Store::new();
    store.local.insert(root.clone(), document);
    store.local.insert(digest(b"updater"), b"updater".to_vec());
    store.remote.insert(digest(b"firmware"), b"firmware".to_vec());
    let release = ReleaseRequest::begin(root, "id.tar.xz".to_string(), false);
    let err = resolve(release, &mut store).err().unwrap();
    assert_eq!(err.kind, ErrorKind::Integrity);
    assert_eq!(err.message(), format!("{} not found in cache", digest(b"firmware")));
}

#[test]
fn manifest_that_does_not_parse_ends_the_resolution() {
    let document = b"not a manifest".to_vec();
    let root = digest(&document);
    let mut store = Store::new();
    store.local.insert(root.clone(), document);
    let err = resolve(ReleaseRequest::begin(root, "id.tar.xz".to_string(), true), &mut store)
        .err()
        .unwrap();
    assert_eq!(err.kind, ErrorKind::Manifest);
    assert_eq!(store.log.len(), 1);
}

#[test]
fn manifest_without_updater_names_it() {
    let document = manifest(&[("id.tar.xz", &digest(b"firmware"))]);
    let root = digest(&document);
    let mut store = Store::new();
    store.local.insert(root.clone(), document);
    let err = resolve(ReleaseRequest::begin(root, "id.tar.xz".to_string(), true), &mut store)
        .err()
        .unwrap();
    assert_eq!(err.kind, ErrorKind::Manifest);
    assert_eq!(err.message(), "system76-firmware-update.tar.xz not found");
}

#[test]
fn manifest_without_this_firmware_names_it() {
    let document = manifest(&[(UPDATER_FILE, &digest(b"updater")), ("a.tar.xz", "D1")]);
    let root = digest(&document);
    let mut store = Store::new();
    store.local.insert(root.clone(), document);
    store.local.insert(digest(b"updater"), b"updater".to_vec());
    let err = resolve(ReleaseRequest::begin(root.clone(), "b.tar.xz".to_string(), true), &mut store)
        .err()
        .unwrap();
    assert_eq!(err.kind, ErrorKind::Manifest);
    assert_eq!(err.message(), "b.tar.xz not found");
    assert_eq!(
        store.log,
        vec![format!("read {}", root), format!("read {}", digest(b"updater"))]
    );
}

#[test]
fn tampered_manifest_is_refused() {
    let document = manifest(&[(UPDATER_FILE, &digest(b"updater")), ("id.tar.xz", &digest(b"firmware"))]);
    let root = digest(&document);
    let forged = manifest(&[(UPDATER_FILE, &digest(b"evil")), ("id.tar.xz", &digest(b"firmware"))]);
    let mut store = Store::new();
    store.local.insert(root.clone(), forged);
    store.local.insert(digest(b"evil"), b"evil".to_vec());
    let err = resolve(ReleaseRequest::begin(root.clone(), "id.tar.xz".to_string(), true), &mut store)
        .err()
        .unwrap();
    assert_eq!(err.kind, ErrorKind::Integrity);
    assert_eq!(err.message(), format!("{} does not match its content", root));
    assert_eq!(store.log, vec![format!("read {}", root)]);
}

#[test]
fn tampered_payload_is_refused() {
    let document = manifest(&[(UPDATER_FILE, &digest(b"updater")), ("id.tar.xz", &digest(b"firmware"))]);
    let root = digest(&document);
    let mut store = Store::new();
    store.local.insert(root.clone(), document);
    store.local.insert(digest(b"updater"), b"updater".to_vec());
    store.remote.insert(digest(b"firmware"), b"firmwarf".to_vec());
    let err = resolve(ReleaseRequest::begin(root, "id.tar.xz".to_string(), true), &mut store)
        .err()
        .unwrap();
    assert_eq!(err.kind, ErrorKind::Integrity);
    assert!(!store.local.contains_key(&digest(b"firmware")));
}
