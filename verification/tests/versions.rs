use harper_c::{harper_get_core_version, harper_get_lib_version};

#[test]
fn lib_version_is_present_and_non_empty() {
    let v = harper_get_lib_version().unwrap();
    assert!(!v.is_empty());
    assert_eq!(v, b"0.1.0".to_vec());
}

#[test]
fn core_version_passes_through() {
    let v = harper_get_core_version(Some("2.0.0")).unwrap();
    assert_eq!(v, b"2.0.0".to_vec());
    assert!(!v.is_empty());
}

#[test]
fn core_version_absent_returns_null() {
    assert!(harper_get_core_version(None).is_none());
}

#[test]
fn version_accessors_are_idempotent() {
    assert_eq!(harper_get_lib_version(), harper_get_lib_version());
    assert_eq!(
        harper_get_core_version(Some("1.2.3")),
        harper_get_core_version(Some("1.2.3"))
    );
}
