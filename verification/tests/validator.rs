//! Setup validation.

use background_service::models::{Platform, SetupIssue, SetupValidationReport, Severity};
use background_service::validator::{linger_path, DesktopProbe, SetupValidator};

#[test]
fn android_returns_no_errors() {
    let report = SetupValidator::validate(Platform::Android);
    assert!(
        report.errors.is_empty(),
        "Android should have no hard errors (checks happen at build/Kotlin level)"
    );
    assert!(!report.warnings.is_empty(), "Android should have warnings");
    assert!(report.ok, "ok should be true when errors is empty");
}

#[test]
fn android_has_fgs_type_warning() {
    let report = SetupValidator::validate(Platform::Android);
    let codes: Vec<&str> = report.warnings.iter().map(|w| w.code.as_str()).collect();
    assert!(
        codes.contains(&"android_fgs_type"),
        "Should warn about FGS type: {codes:?}"
    );
}

#[test]
fn android_has_post_notifications_warning() {
    let report = SetupValidator::validate(Platform::Android);
    let codes: Vec<&str> = report.warnings.iter().map(|w| w.code.as_str()).collect();
    assert!(
        codes.contains(&"android_post_notifications"),
        "Should warn about POST_NOTIFICATIONS: {codes:?}"
    );
}

#[test]
fn android_has_boot_receiver_warning() {
    let report = SetupValidator::validate(Platform::Android);
    let codes: Vec<&str> = report.warnings.iter().map(|w| w.code.as_str()).collect();
    assert!(
        codes.contains(&"android_boot_receiver"),
        "Should warn about boot receiver: {codes:?}"
    );
}

#[test]
fn android_has_special_use_subtype_warning() {
    let report = SetupValidator::validate(Platform::Android);
    let codes: Vec<&str> = report.warnings.iter().map(|w| w.code.as_str()).collect();
    assert!(
        codes.contains(&"android_special_use_subtype"),
        "Should warn about specialUse subtype: {codes:?}"
    );
}

#[test]
fn android_has_api35_boot_blocked_type_warning() {
    let report = SetupValidator::validate(Platform::Android);
    let codes: Vec<&str> = report.warnings.iter().map(|w| w.code.as_str()).collect();
    assert!(
        codes.contains(&"android_api35_boot_blocked_type"),
        "Should warn about API 35+ boot-blocked FGS types: {codes:?}"
    );
}

#[test]
fn android_api35_boot_blocked_warning_lists_types() {
    let report = SetupValidator::validate(Platform::Android);
    let warning = report
        .warnings
        .iter()
        .find(|w| w.code == "android_api35_boot_blocked_type")
        .expect("Should have android_api35_boot_blocked_type warning");
    for ty in &[
        "dataSync",
        "camera",
        "mediaPlayback",
        "phoneCall",
        "mediaProjection",
        "microphone",
    ] {
        assert!(
            warning.message.contains(ty),
            "Warning message should mention '{}': {}",
            ty,
            warning.message
        );
    }
    assert!(warning.fix.is_some(), "Should have a fix suggestion");
}

#[test]
fn android_all_warnings_have_fix() {
    let report = SetupValidator::validate(Platform::Android);
    for w in &report.warnings {
        assert!(
            w.fix.is_some(),
            "Warning '{}' should have a fix suggestion",
            w.code
        );
    }
}

#[test]
fn android_all_warnings_are_android_platform() {
    let report = SetupValidator::validate(Platform::Android);
    for w in &report.warnings {
        assert_eq!(
            w.platform,
            Platform::Android,
            "Warning '{}' should be Android platform",
            w.code
        );
    }
}

#[test]
fn ios_returns_no_errors() {
    let report = SetupValidator::validate(Platform::Ios);
    assert!(
        report.errors.is_empty(),
        "iOS should have no hard errors (checks happen at build/Swift level)"
    );
    assert!(!report.warnings.is_empty(), "iOS should have warnings");
    assert!(report.ok, "ok should be true when errors is empty");
}

#[test]
fn ios_has_background_modes_warning() {
    let report = SetupValidator::validate(Platform::Ios);
    let codes: Vec<&str> = report.warnings.iter().map(|w| w.code.as_str()).collect();
    assert!(
        codes.contains(&"ios_ui_background_modes"),
        "Should warn about UIBackgroundModes: {codes:?}"
    );
}

#[test]
fn ios_has_task_identifiers_warning() {
    let report = SetupValidator::validate(Platform::Ios);
    let codes: Vec<&str> = report.warnings.iter().map(|w| w.code.as_str()).collect();
    assert!(
        codes.contains(&"ios_bg_task_identifiers"),
        "Should warn about BGTaskSchedulerPermittedIdentifiers: {codes:?}"
    );
}

#[test]
fn ios_has_background_refresh_warning() {
    let report = SetupValidator::validate(Platform::Ios);
    let codes: Vec<&str> = report.warnings.iter().map(|w| w.code.as_str()).collect();
    assert!(
        codes.contains(&"ios_background_refresh"),
        "Should warn about background refresh: {codes:?}"
    );
}

#[test]
fn ios_all_warnings_have_fix() {
    let report = SetupValidator::validate(Platform::Ios);
    for w in &report.warnings {
        assert!(
            w.fix.is_some(),
            "Warning '{}' should have a fix suggestion",
            w.code
        );
    }
}

#[test]
fn ios_all_warnings_are_ios_platform() {
    let report = SetupValidator::validate(Platform::Ios);
    for w in &report.warnings {
        assert_eq!(
            w.platform,
            Platform::Ios,
            "Warning '{}' should be iOS platform",
            w.code
        );
    }
}

#[test]
fn desktop_linux_no_errors_by_default() {
    let report = SetupValidator::validate(Platform::Linux);
    assert!(
        report.ok || !report.errors.is_empty(),
        "Report should be consistent: ok == errors.is_empty()"
    );
    assert_eq!(report.ok, report.errors.is_empty());
}

#[test]
fn desktop_macos_no_errors_by_default() {
    let report = SetupValidator::validate(Platform::Macos);
    assert_eq!(report.ok, report.errors.is_empty());
}

#[test]
fn desktop_windows_no_errors() {
    let report = SetupValidator::validate(Platform::Windows);
    assert!(
        report.errors.is_empty(),
        "Windows should have no desktop-service errors (not yet supported)"
    );
    assert!(report.ok);
}

#[test]
fn desktop_unknown_no_errors() {
    let report = SetupValidator::validate(Platform::Unknown);
    assert!(report.errors.is_empty());
    assert!(report.ok);
}

#[test]
fn all_issues_have_non_empty_message() {
    for platform in [
        Platform::Android,
        Platform::Ios,
        Platform::Linux,
        Platform::Macos,
        Platform::Windows,
    ] {
        let report = SetupValidator::validate(platform);
        for issue in report.errors.iter().chain(report.warnings.iter()) {
            assert!(
                !issue.message.is_empty(),
                "Issue '{}' on {:?} should have a non-empty message",
                issue.code,
                platform
            );
            assert!(
                !issue.code.is_empty(),
                "Found an issue with an empty code on {:?}",
                platform
            );
        }
    }
}

#[test]
fn setup_validation_report_ok_true_when_no_errors() {
    let report = SetupValidationReport {
        ok: true,
        errors: vec![],
        warnings: vec![SetupIssue {
            code: "w".into(),
            message: "warn".into(),
            platform: Platform::Linux,
            fix: None,
        }],
        issues: vec![],
    };
    assert!(report.ok);
}

#[test]
fn setup_validation_report_ok_false_with_errors() {
    let report = SetupValidationReport {
        ok: false,
        errors: vec![SetupIssue {
            code: "e".into(),
            message: "err".into(),
            platform: Platform::Linux,
            fix: None,
        }],
        warnings: vec![],
        issues: vec![],
    };
    assert!(!report.ok);
}

#[test]
fn android_error_prevents_ok() {
    let report = SetupValidationReport {
        ok: false,
        errors: vec![SetupIssue {
            code: "test_error".into(),
            message: "test".into(),
            platform: Platform::Android,
            fix: None,
        }],
        warnings: vec![],
        issues: vec![],
    };
    assert!(!report.ok);
    assert_eq!(report.errors.len(), 1);
}

#[test]
fn warnings_do_not_affect_ok() {
    let report = SetupValidationReport {
        ok: true,
        errors: vec![],
        warnings: vec![SetupIssue {
            code: "w".into(),
            message: "just a warning".into(),
            platform: Platform::Linux,
            fix: None,
        }],
        issues: vec![],
    };
    assert!(report.ok);
    assert!(!report.warnings.is_empty());
}

#[test]
fn setup_issue_to_validation_issue_error_severity() {
    let issue = SetupIssue {
        code: "test".into(),
        message: "msg".into(),
        platform: Platform::Linux,
        fix: Some("fix it".into()),
    };
    let vi = issue.to_validation_issue(Severity::Error);
    assert_eq!(vi.severity, Severity::Error);
    assert_eq!(vi.code, "test");
    assert_eq!(vi.message, "msg");
    assert_eq!(vi.platform, Platform::Linux);
    assert_eq!(vi.fix, Some("fix it".into()));
}

#[test]
fn setup_issue_to_validation_issue_warning_severity() {
    let issue = SetupIssue {
        code: "w".into(),
        message: "warn msg".into(),
        platform: Platform::Android,
        fix: None,
    };
    let vi = issue.to_validation_issue(Severity::Warning);
    assert_eq!(vi.severity, Severity::Warning);
    assert_eq!(vi.code, "w");
    assert!(vi.fix.is_none());
}

#[test]
fn android_issues_populated_with_warning_severity() {
    let report = SetupValidator::validate(Platform::Android);
    assert!(
        !report.issues.is_empty(),
        "Android should have structured issues"
    );
    assert_eq!(
        report.issues.len(),
        report.warnings.len(),
        "issues count should match warnings count (no errors on Android)"
    );
    for vi in &report.issues {
        assert_eq!(
            vi.severity,
            Severity::Warning,
            "All Android issues should be warnings: {:?}",
            vi.code
        );
    }
}

#[test]
fn ios_issues_populated_with_warning_severity() {
    let report = SetupValidator::validate(Platform::Ios);
    assert!(
        !report.issues.is_empty(),
        "iOS should have structured issues"
    );
    assert_eq!(
        report.issues.len(),
        report.warnings.len(),
        "issues count should match warnings count (no errors on iOS)"
    );
    for vi in &report.issues {
        assert_eq!(
            vi.severity,
            Severity::Warning,
            "All iOS issues should be warnings: {:?}",
            vi.code
        );
    }
}

#[test]
fn windows_issues_empty() {
    let report = SetupValidator::validate(Platform::Windows);
    assert!(report.issues.is_empty(), "Windows has no validation issues");
}

#[test]
fn unknown_issues_empty() {
    let report = SetupValidator::validate(Platform::Unknown);
    assert!(report.issues.is_empty(), "Unknown has no validation issues");
}

#[test]
fn desktop_issues_include_errors_and_warnings() {
    let report = SetupValidator::validate(Platform::Linux);
    let error_count = report
        .issues
        .iter()
        .filter(|vi| vi.severity == Severity::Error)
        .count();
    let warning_count = report
        .issues
        .iter()
        .filter(|vi| vi.severity == Severity::Warning)
        .count();
    assert_eq!(
        error_count,
        report.errors.len(),
        "Error issues should match errors count"
    );
    assert_eq!(
        warning_count,
        report.warnings.len(),
        "Warning issues should match warnings count"
    );
    assert_eq!(
        report.issues.len(),
        report.errors.len() + report.warnings.len(),
        "Total issues = errors + warnings"
    );
}

#[test]
fn all_platforms_issues_match_errors_plus_warnings() {
    for platform in [
        Platform::Android,
        Platform::Ios,
        Platform::Linux,
        Platform::Macos,
        Platform::Windows,
    ] {
        let report = SetupValidator::validate(platform);
        assert_eq!(
            report.issues.len(),
            report.errors.len() + report.warnings.len(),
            "issues count should equal errors + warnings for {:?}",
            platform
        );
    }
}

#[test]
fn issues_preserve_codes_from_errors_and_warnings() {
    let report = SetupValidator::validate(Platform::Android);
    let error_codes: Vec<&str> = report.errors.iter().map(|e| e.code.as_str()).collect();
    let warning_codes: Vec<&str> = report.warnings.iter().map(|w| w.code.as_str()).collect();
    let issue_codes: Vec<&str> = report.issues.iter().map(|i| i.code.as_str()).collect();
    for code in error_codes.iter().chain(warning_codes.iter()) {
        assert!(
            issue_codes.contains(code),
            "issues should contain code '{}'",
            code
        );
    }
}

// ─── Desktop OS services ───────────────────────────────────────────────

fn probe() -> DesktopProbe {
    DesktopProbe {
        systemctl_in_usr_bin: false,
        systemctl_in_bin: false,
        systemctl_on_path: false,
        linger_by_uid: false,
        linger_by_name: None,
    }
}

fn error_codes(report: &SetupValidationReport) -> Vec<&str> {
    report.errors.iter().map(|e| e.code.as_str()).collect()
}

fn warning_codes(report: &SetupValidationReport) -> Vec<&str> {
    report.warnings.iter().map(|w| w.code.as_str()).collect()
}

#[test]
fn linux_without_systemd_is_an_error() {
    let report = SetupValidator::validate_with_probe(Platform::Linux, Some(probe()));
    assert!(!report.ok);
    assert_eq!(error_codes(&report), vec!["desktop_systemd_missing"]);
    assert!(report.warnings.is_empty());
    assert_eq!(report.issues.len(), 1);
    assert_eq!(report.issues[0].severity, Severity::Error);
    assert_eq!(
        report.issues[0].message,
        "systemctl not found — OS service mode requires systemd"
    );
}

#[test]
fn linux_without_linger_is_a_warning() {
    for found in [
        DesktopProbe {
            systemctl_in_usr_bin: true,
            ..probe()
        },
        DesktopProbe {
            systemctl_in_bin: true,
            linger_by_name: Some(false),
            ..probe()
        },
        DesktopProbe {
            systemctl_on_path: true,
            ..probe()
        },
    ] {
        let report = SetupValidator::validate_with_probe(Platform::Linux, Some(found));
        assert!(report.ok);
        assert_eq!(warning_codes(&report), vec!["desktop_systemd_no_linger"]);
    }
}

#[test]
fn linux_with_systemd_and_linger_is_fine() {
    for found in [
        DesktopProbe {
            systemctl_in_usr_bin: true,
            linger_by_uid: true,
            ..probe()
        },
        DesktopProbe {
            systemctl_on_path: true,
            linger_by_name: Some(true),
            ..probe()
        },
    ] {
        let report = SetupValidator::validate_with_probe(Platform::Linux, Some(found));
        assert!(report.ok);
        assert!(report.issues.is_empty());
    }
}

#[test]
fn macos_warns_of_the_sandbox() {
    let report = SetupValidator::validate_with_probe(Platform::Macos, Some(probe()));
    assert!(report.ok);
    assert_eq!(warning_codes(&report), vec!["desktop_macos_sandbox"]);
    assert_eq!(report.issues[0].platform, Platform::Macos);
}

#[test]
fn other_platforms_ignore_the_probe() {
    for platform in [Platform::Windows, Platform::Unknown] {
        let report = SetupValidator::validate_with_probe(platform, Some(probe()));
        assert!(report.ok && report.issues.is_empty());
    }
    for platform in [Platform::Android, Platform::Ios] {
        assert_eq!(
            SetupValidator::validate_with_probe(platform, Some(probe())),
            SetupValidator::validate(platform)
        );
    }
}

#[test]
fn report_texts() {
    let report = SetupValidator::validate(Platform::Android);
    assert_eq!(report.warnings.len(), 5);
    assert_eq!(
        report.warnings[0].message,
        "Ensure the foreground service type is declared in AndroidManifest.xml \
         with the matching permission"
    );
    assert_eq!(
        report.warnings[3].fix.as_deref(),
        Some(
            "Add <property android:name=\"android.app.PROPERTY_SPECIAL_USE_FGS_SUBTYPE\" \
             android:value=\"your_reason\" /> to the <service> element"
        )
    );
    let report = SetupValidator::validate(Platform::Ios);
    assert_eq!(report.warnings.len(), 3);
    assert_eq!(
        report.warnings[1].fix.as_deref(),
        Some(
            "Add BGTaskSchedulerPermittedIdentifiers array with \
             '$(BUNDLE_ID).bg-refresh' and '$(BUNDLE_ID).bg-processing' to Info.plist"
        )
    );
}

#[test]
fn linger_paths() {
    assert_eq!(linger_path("1000"), "/var/lib/systemd/linger/1000");
    assert_eq!(linger_path("ada"), "/var/lib/systemd/linger/ada");
}
