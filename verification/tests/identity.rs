use system76_firmware_daemon::digest::hex;
use system76_firmware_daemon::error::{err_str, ErrorKind};
use system76_firmware_daemon::identity::{firmware_id, NO_CONTROLLER};

#[test]
fn identity_joins_model_and_project_hash() {
    let id = firmware_id(Ok("galp3-b".to_string()), Some("N130ZU".to_string())).unwrap();
    assert_eq!(
        id,
        "galp3-b_1922aa03d5931823ee181e4edfe9b8dd2802ed1f377eb946fed98199bb979bbb"
    );
}

#[test]
fn identity_without_controller_hashes_the_placeholder() {
    assert_eq!(NO_CONTROLLER, "none");
    let id = firmware_id(Ok("thelio-b1".to_string()), None).unwrap();
    assert_eq!(
        id,
        "thelio-b1_140bedbf9c3f6d56a9846d2ba7088798683f4da0c248231336e6a05679e4fdfe"
    );
    let named = firmware_id(Ok("thelio-b1".to_string()), Some("none".to_string())).unwrap();
    assert_eq!(named, id);
}

#[test]
fn identity_with_empty_project_hashes_nothing() {
    let id = firmware_id(Ok("m".to_string()), Some(String::new())).unwrap();
    assert_eq!(
        id,
        "m_e3b0c44298fc1c149afbf4c8996fb92427ae41e4649b934ca495991b7852b855"
    );
}

#[test]
fn identity_fails_without_bios_model() {
    let err = firmware_id(Err("failed to read product_version".to_string()), Some("P".to_string()))
        .unwrap_err();
    assert_eq!(err.kind, ErrorKind::Identity);
    assert_eq!(err.message(), "failed to read product_version");
}

#[test]
fn identity_is_the_same_on_an_unchanged_host() {
    let first = firmware_id(Ok("galp3-b".to_string()), Some("N130ZU".to_string())).unwrap();
    let second = firmware_id(Ok("galp3-b".to_string()), Some("N130ZU".to_string())).unwrap();
    assert_eq!(first, second);
    let other = firmware_id(Ok("galp3-b".to_string()), Some("N130ZV".to_string())).unwrap();
    assert_ne!(first, other);
}

#[test]
fn err_str_is_what_display_writes() {
    assert_eq!(err_str("plain"), "plain");
    assert_eq!(err_str(42), "42");
    let parse = "x".parse::<u8>().unwrap_err();
    assert_eq!(err_str(&parse), format!("{}", parse));
}

#[test]
fn hex_writes_two_lower_case_digits_per_byte() {
    assert_eq!(hex(&[]), "");
    assert_eq!(hex(&[0x00]), "00");
    assert_eq!(hex(&[0x00, 0x0f, 0xa5, 0xff, 0x10, 0x9c]), "000fa5ff109c");
    let all: Vec<u8> = (0..=255).collect();
    let expected: String = all.iter().map(|byte| format!("{:02x}", byte)).collect();
    assert_eq!(hex(&all), expected);
}
