use herdr::build_info::{
    build_id, channel, fixed_update_channel, is_preview, manifest_url, non_empty, version,
};

#[test]
fn stable_version_defaults_to_cargo_version() {
    assert!(!version("0.1.0", None, None).is_empty());
    assert_eq!(version("0.1.0", None, None), "0.1.0");
}

#[test]
fn explicit_stable_channel_gives_the_base_version() {
    assert_eq!(version("0.4.2", Some(" stable "), Some("abc")), "0.4.2");
}

#[test]
fn preview_version_carries_channel_and_build_id() {
    assert_eq!(
        version("0.4.2", Some("preview"), Some(" 20240101-0123456789ab ")),
        "0.4.2-preview.20240101-0123456789ab"
    );
    assert_eq!(version("0.4.2", Some("preview"), Some("   ")), "0.4.2-preview");
    assert_eq!(version("0.4.2", Some("nightly"), None), "0.4.2-nightly");
}

#[test]
fn blank_values_count_as_unset() {
    assert_eq!(non_empty(None), None);
    assert_eq!(non_empty(Some("")), None);
    assert_eq!(non_empty(Some(" \t\n")), None);
    assert_eq!(non_empty(Some("\u{3000}x\u{a0}")), Some("x"));
    assert_eq!(channel(Some("  ")), "stable");
    assert_eq!(channel(None), "stable");
    assert_eq!(channel(Some(" preview\n")), "preview");
    assert_eq!(build_id(Some(" 42 ")), Some("42"));
    assert_eq!(fixed_update_channel(Some("preview")), Some("preview"));
    assert_eq!(fixed_update_channel(Some("")), None);
}

#[test]
fn preview_channel_is_recognised() {
    assert!(is_preview(Some("preview")));
    assert!(is_preview(Some(" preview ")));
    assert!(!is_preview(Some("stable")));
    assert!(!is_preview(None));
    assert!(!is_preview(Some("previews")));
}

#[test]
fn manifest_override_applies_only_when_not_empty() {
    let default = "https://herdr.dev/latest.json";
    assert_eq!(manifest_url(None, default), default);
    assert_eq!(manifest_url(Some(""), default), default);
    assert_eq!(
        manifest_url(Some("https://example.com/preview.json"), default),
        "https://example.com/preview.json"
    );
    assert_eq!(manifest_url(Some(" "), default), " ");
}
