use rom_deploy::model::{
    Confidence, LayoutDetectionResult, LayoutPaths, PathResolutionSource, ResolvedPathSource,
    ScanSettings, UserPathOverrideEntry,
};
use rom_deploy::resolver::{lower_confidence, resolve, resolve_deployment_paths};

fn layout(
    bios: Option<&str>,
    roms: Option<&str>,
    saves: Option<&str>,
    states: Option<&str>,
    screenshots: Option<&str>,
) -> LayoutPaths {
    LayoutPaths {
        bios: bios.map(|s| s.to_string()),
        roms: roms.map(|s| s.to_string()),
        saves: saves.map(|s| s.to_string()),
        states: states.map(|s| s.to_string()),
        screenshots: screenshots.map(|s| s.to_string()),
    }
}

fn empty() -> LayoutPaths {
    layout(None, None, None, None, None)
}

#[test]
fn profile_default_and_scan_fallback_example() {
    let expected = layout(None, Some("/Roms"), None, None, None);
    let detected = layout(Some("/BIOS"), Some("/ROMS"), None, None, None);
    let r = resolve("/media/sd", &expected, &detected, Confidence::Medium, &None, false);
    assert_eq!(r.roms, "/Roms");
    assert_eq!(r.resolution.roms.source, PathResolutionSource::Profile);
    assert_eq!(r.resolution.roms.reason, "device profile default");
    assert_eq!(r.bios, "/BIOS");
    assert_eq!(r.resolution.bios.source, PathResolutionSource::Detected);
    assert_eq!(r.resolution.bios.reason, "fallback to scan result");
    assert_eq!(r.saves, "/media/sd/saves");
    assert_eq!(r.states, "/media/sd/states");
    assert_eq!(r.screenshots, "/media/sd/screenshots");
    assert_eq!(r.resolution.screenshots.source, PathResolutionSource::Fallback);
    assert_eq!(
        r.resolution.saves.reason,
        "no source available, using convention default"
    );
    assert_eq!(r.source, ResolvedPathSource::Merged);
    assert_eq!(r.confidence, Confidence::Unknown);
}

#[test]
fn user_override_wins_whatever_the_trust_setting() {
    let expected = layout(Some("/p/bios"), Some("/p/roms"), None, None, None);
    let detected = layout(Some("/d/bios"), Some("/d/roms"), None, None, None);
    let user = Some(layout(None, Some("/u/roms"), None, None, None));
    for trust in [false, true] {
        let r = resolve("/sd", &expected, &detected, Confidence::High, &user, trust);
        assert_eq!(r.roms, "/u/roms");
        assert_eq!(r.resolution.roms.source, PathResolutionSource::User);
        assert_eq!(r.resolution.roms.reason, "user override");
    }
}

#[test]
fn empty_override_does_not_count() {
    let expected = layout(None, Some("/p/roms"), None, None, None);
    let user = Some(layout(None, Some(""), None, None, None));
    let r = resolve("/sd", &expected, &empty(), Confidence::High, &user, false);
    assert_eq!(r.roms, "/p/roms");
    assert_eq!(r.resolution.roms.source, PathResolutionSource::Profile);
}

#[test]
fn trusted_scan_beats_profile() {
    let expected = layout(Some("/p/bios"), None, None, None, None);
    let detected = layout(Some("/d/bios"), None, None, None, None);
    let r = resolve("/sd", &expected, &detected, Confidence::Low, &None, true);
    assert_eq!(r.bios, "/d/bios");
    assert_eq!(r.resolution.bios.source, PathResolutionSource::Detected);
    assert_eq!(r.resolution.bios.reason, "destination scan");
    let r = resolve("/sd", &expected, &detected, Confidence::Low, &None, false);
    assert_eq!(r.bios, "/p/bios");
}

#[test]
fn resolution_is_repeatable() {
    let expected = layout(Some("/b"), None, Some("/s"), None, None);
    let detected = layout(None, Some("/r"), None, Some("/st"), None);
    let user = Some(layout(None, None, None, None, Some("/shots")));
    let a = resolve("/sd", &expected, &detected, Confidence::Medium, &user, true);
    let b = resolve("/sd", &expected, &detected, Confidence::Medium, &user, true);
    assert_eq!(format!("{:?}", a), format!("{:?}", b));
    assert_eq!(a.confidence, Confidence::Medium);
    assert_eq!(a.source, ResolvedPathSource::Merged);
}

#[test]
fn all_from_one_source_takes_its_tag() {
    let expected = layout(Some("/b"), Some("/r"), Some("/s"), Some("/st"), Some("/sh"));
    let r = resolve("/sd", &expected, &empty(), Confidence::Low, &None, false);
    assert_eq!(r.source, ResolvedPathSource::Expected);
    assert_eq!(r.confidence, Confidence::High);
    let r = resolve("/sd", &empty(), &expected, Confidence::Low, &None, false);
    assert_eq!(r.source, ResolvedPathSource::Detected);
    assert_eq!(r.confidence, Confidence::Low);
    let r = resolve("/sd", &empty(), &empty(), Confidence::High, &Some(expected.clone()), false);
    assert_eq!(r.source, ResolvedPathSource::UserOverride);
    let r = resolve("/sd", &empty(), &empty(), Confidence::High, &None, false);
    assert_eq!(r.source, ResolvedPathSource::Merged);
    assert_eq!(r.bios, "/sd/bios");
    assert_eq!(r.roms, "/sd/roms");
}

#[test]
fn lowest_confidence_is_kept() {
    assert_eq!(lower_confidence(Confidence::High, Confidence::Medium), Confidence::Medium);
    assert_eq!(lower_confidence(Confidence::Low, Confidence::Medium), Confidence::Low);
    assert_eq!(lower_confidence(Confidence::Unknown, Confidence::High), Confidence::Unknown);
}

fn settings(trust: bool, keep_overrides: bool) -> ScanSettings {
    ScanSettings {
        scan_destination_before_deployment: true,
        trust_detected_layout_over_expected: trust,
        remember_scanned_layouts: true,
        remember_user_path_overrides: keep_overrides,
    }
}

#[test]
fn settings_decide_trust_and_overrides() {
    let expected = layout(Some("/p/bios"), Some("/p/roms"), None, None, None);
    let detection = LayoutDetectionResult {
        destination_path: "/sd".to_string(),
        detected_os_id: Some("onion".to_string()),
        confidence: Confidence::Medium,
        evidence: vec![],
        detected_paths: Some(layout(Some("/d/bios"), None, None, None, None)),
    };
    let saved = Some(UserPathOverrideEntry {
        destination_id: "card".to_string(),
        os_id: "onion".to_string(),
        last_scanned: "2024-01-01".to_string(),
        path_overrides: layout(None, Some("/u/roms"), None, None, None),
        notes: None,
    });
    let r = resolve_deployment_paths("/sd", &expected, &detection, &saved, &settings(true, true));
    assert_eq!(r.bios, "/d/bios");
    assert_eq!(r.roms, "/u/roms");
    assert_eq!(r.confidence, Confidence::Unknown);
    let r = resolve_deployment_paths("/sd", &expected, &detection, &saved, &settings(false, false));
    assert_eq!(r.bios, "/p/bios");
    assert_eq!(r.roms, "/p/roms");
    let none = LayoutDetectionResult { detected_paths: None, ..detection };
    let r = resolve_deployment_paths("/sd", &empty(), &none, &None, &settings(true, true));
    assert_eq!(r.bios, "/sd/bios");
    assert_eq!(r.resolution.bios.source, PathResolutionSource::Fallback);
}
