use system76_firmware_daemon::cache::{is_intact, ObjectRequest, StoreReply, StoreRequest};
use system76_firmware_daemon::error::ErrorKind;

fn digest(data: &[u8]) -> String {
    buildchain::Sha384::new(data).unwrap().to_base32()
}

fn asks_read(request: &ObjectRequest, wanted: &str) {
    match request.pending() {
        Some(StoreRequest::Read { digest }) => assert_eq!(digest, wanted),
        other => panic!("{:?}", other),
    }
}

fn asks_fetch(request: &ObjectRequest, wanted: &str) {
    match request.pending() {
        Some(StoreRequest::Fetch { digest }) => assert_eq!(digest, wanted),
        other => panic!("{:?}", other),
    }
}

#[test]
fn digest_is_base32_sha384() {
    let d = "LHQXJB3XISGGTXTLQAGXUM537OP7DNDD4RBVJQ2VHPG3TRTG7KIBEWR4PH4QHF556X3KCPPIFBUE6";
    assert!(is_intact(&d.to_string(), &b"hello".to_vec()));
    assert!(!is_intact(&d.to_string(), &b"hellp".to_vec()));
    assert!(!is_intact(&"hello".to_string(), &b"hello".to_vec()));
    assert!(!is_intact(&d.to_lowercase(), &b"hello".to_vec()));
}

#[test]
fn intact_local_object_is_served() {
    let d = digest(b"blob");
    let request = ObjectRequest::begin(d.clone(), true);
    asks_read(&request, &d);
    let request = request.step(StoreReply::Read(Some(b"blob".to_vec())));
    assert!(request.pending().is_none());
    assert_eq!(request.outcome().ok().unwrap().unwrap(), b"blob");
}

#[test]
fn corrupt_local_object_is_refused() {
    let d = digest(b"blob");
    for remote in [false, true] {
        let request = ObjectRequest::begin(d.clone(), remote);
        let request = request.step(StoreReply::Read(Some(b"blob!".to_vec())));
        assert!(request.pending().is_none());
        let err = request.outcome().ok().unwrap().unwrap_err();
        assert_eq!(err.kind, ErrorKind::Integrity);
        assert_eq!(err.message(), format!("{} does not match its content", d));
    }
}

#[test]
fn missing_object_without_remote_is_not_found() {
    let d = digest(b"blob");
    let request = ObjectRequest::begin(d.clone(), false).step(StoreReply::Read(None));
    let err = request.outcome().ok().unwrap().unwrap_err();
    assert_eq!(err.kind, ErrorKind::Integrity);
    assert_eq!(err.message(), format!("{} not found in cache", d));
}

#[test]
fn missing_object_is_fetched_verified_and_stored() {
    let d = digest(b"blob");
    let request = ObjectRequest::begin(d.clone(), true).step(StoreReply::Read(None));
    asks_fetch(&request, &d);
    let request = request.step(StoreReply::Fetched(Ok(b"blob".to_vec())));
    match request.pending() {
        Some(StoreRequest::Write { digest, bytes }) => {
            assert_eq!(digest, d);
            assert_eq!(bytes, b"blob");
        },
        other => panic!("{:?}", other),
    }
    let request = match request.outcome() {
        Err(request) => request,
        Ok(_) => panic!("answered before the object was stored"),
    };
    let request = request.step(StoreReply::Written(Ok(())));
    assert_eq!(request.outcome().ok().unwrap().unwrap(), b"blob");
}

#[test]
fn mismatched_fetch_is_refused_and_not_stored() {
    let d = digest(b"blob");
    let request = ObjectRequest::begin(d.clone(), true)
        .step(StoreReply::Read(None))
        .step(StoreReply::Fetched(Ok(b"other".to_vec())));
    assert!(request.pending().is_none());
    let err = request.outcome().ok().unwrap().unwrap_err();
    assert_eq!(err.kind, ErrorKind::Integrity);
    assert_eq!(err.message(), format!("{} does not match its content", d));
}

#[test]
fn failed_fetch_is_reported() {
    let d = digest(b"blob");
    let request = ObjectRequest::begin(d, true)
        .step(StoreReply::Read(None))
        .step(StoreReply::Fetched(Err("failed to download object/X: 404".to_string())));
    let err = request.outcome().ok().unwrap().unwrap_err();
    assert_eq!(err.kind, ErrorKind::Integrity);
    assert_eq!(err.message(), "failed to download object/X: 404");
}

#[test]
fn failed_write_is_reported() {
    let d = digest(b"blob");
    let request = ObjectRequest::begin(d, true)
        .step(StoreReply::Read(None))
        .step(StoreReply::Fetched(Ok(b"blob".to_vec())))
        .step(StoreReply::Written(Err("No space left on device".to_string())));
    let err = request.outcome().ok().unwrap().unwrap_err();
    assert_eq!(err.kind, ErrorKind::Filesystem);
    assert_eq!(err.message(), "No space left on device");
}

#[test]
fn reply_to_what_was_not_asked_changes_nothing() {
    let d = digest(b"blob");
    let request = ObjectRequest::begin(d.clone(), true)
        .step(StoreReply::Fetched(Ok(b"blob".to_vec())))
        .step(StoreReply::Written(Ok(())));
    asks_read(&request, &d);
    let request = request.step(StoreReply::Read(None)).step(StoreReply::Read(Some(b"blob".to_vec())));
    asks_fetch(&request, &d);
    let request = request
        .step(StoreReply::Read(Some(b"blob".to_vec())))
        .step(StoreReply::Fetched(Ok(b"blob".to_vec())))
        .step(StoreReply::Written(Ok(())))
        .step(StoreReply::Written(Err("late".to_string())))
        .step(StoreReply::Read(None));
    assert_eq!(request.outcome().ok().unwrap().unwrap(), b"blob");
}

#[test]
fn empty_object_has_a_digest_too() {
    let d = digest(b"");
    let request = ObjectRequest::begin(d, false).step(StoreReply::Read(Some(Vec::new())));
    assert_eq!(request.outcome().ok().unwrap().unwrap(), b"");
}
