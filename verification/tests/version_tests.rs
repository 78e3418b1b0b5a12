use termineer::version_check::{is_newer_version, update_status};

#[test]
fn test_version_comparison() {
    assert!(is_newer_version("0.2.0", "0.1.0"));
    assert!(is_newer_version("1.0.0", "0.9.9"));
    assert!(is_newer_version("0.2.1", "0.2.0"));
    assert!(is_newer_version("0.10.0", "0.9.0"));
    assert!(is_newer_version("0.9.10", "0.9.9"));
    assert!(is_newer_version("1.0.0", "0.9.0"));
    assert!(is_newer_version("v1.0.0", "0.9.0"));
    assert!(is_newer_version("1.0.0", "v0.9.0"));

    assert!(!is_newer_version("0.1.0", "0.2.0"));
    assert!(!is_newer_version("0.9.9", "1.0.0"));
    assert!(!is_newer_version("0.9.0", "0.10.0"));
    assert!(!is_newer_version("1.0.0", "1.0.0"));
    assert!(!is_newer_version("v1.0.0", "1.0.0"));
}

#[test]
fn longer_version_with_same_prefix_is_newer() {
    assert!(is_newer_version("1.0.0.1", "1.0.0"));
    assert!(!is_newer_version("1.0", "1.0.0"));
    // components that are not numbers are skipped
    assert!(is_newer_version("1.x.2", "1.1"));
}

#[test]
fn version_order_laws_on_examples() {
    let vs = ["0.1.0", "0.2.0", "0.10.0", "1.0", "v1.0.0"];
    for a in vs.iter() {
        assert!(!is_newer_version(a, a));
        for b in vs.iter() {
            assert!(!(is_newer_version(a, b) && is_newer_version(b, a)));
        }
    }
}

#[test]
fn update_notice_text() {
    let (newer, shown, msg) = update_status("0.3.0", "0.2.9");
    assert!(newer);
    assert_eq!(shown, "0.3.0");
    assert_eq!(msg.unwrap(), "🔄 Update available: 0.2.9 → 0.3.0\nRun 'npm update -g termineer' to update");
    let (newer, shown, msg) = update_status("0.2.9", "0.2.9");
    assert!(!newer);
    assert_eq!(shown, "0.2.9");
    assert!(msg.is_none());
}
