//! Setup validation: what the platform needs for background execution.

use crate::models::{
    Platform, SetupIssue, SetupIssueView, SetupValidationReport, Severity, ValidationIssue,
    ValidationIssueView,
};
use crate::text::concat2;
use vstd::prelude::*;

verus! {

/// What some issues hold, in order.
pub open spec fn issue_views(issues: Seq<SetupIssue>) -> Seq<SetupIssueView> {
    Seq::new(issues.len(), |i: int| issues[i]@)
}

/// What some rated issues hold, in order.
pub open spec fn rated_views(issues: Seq<ValidationIssue>) -> Seq<ValidationIssueView> {
    Seq::new(issues.len(), |i: int| issues[i]@)
}

/// Issues, all with one severity added.
pub open spec fn rated_all(
    issues: Seq<SetupIssueView>,
    severity: Severity,
) -> Seq<ValidationIssueView> {
    Seq::new(issues.len(), |i: int| issues[i].rated(severity))
}

/// What a [`SetupValidationReport`] holds.
pub struct ReportView {
    pub ok: bool,
    pub errors: Seq<SetupIssueView>,
    pub warnings: Seq<SetupIssueView>,
    pub issues: Seq<ValidationIssueView>,
}

impl View for SetupValidationReport {
    type V = ReportView;

    open spec fn view(&self) -> ReportView {
        ReportView {
            ok: self.ok,
            errors: issue_views(self.errors@),
            warnings: issue_views(self.warnings@),
            issues: rated_views(self.issues@),
        }
    }
}

/// The report on some errors and warnings: fine if there is no error, with the
/// errors and then the warnings rated.
pub open spec fn report_of(
    errors: Seq<SetupIssueView>,
    warnings: Seq<SetupIssueView>,
) -> ReportView {
    ReportView {
        ok: errors.len() == 0,
        errors,
        warnings,
        issues: rated_all(errors, Severity::Error) + rated_all(warnings, Severity::Warning),
    }
}

/// An issue with a suggested fix.
pub open spec fn issue_view(
    code: &str,
    message: &str,
    platform: Platform,
    fix: &str,
) -> SetupIssueView {
    SetupIssueView { code: code@, message: message@, platform, fix: Some(fix@) }
}

fn issue(code: &str, message: &str, platform: Platform, fix: &str) -> (made: SetupIssue)
    ensures
        made@ == issue_view(code, message, platform, fix),
{
    SetupIssue {
        code: code.to_owned(),
        message: message.to_owned(),
        platform,
        fix: Some(fix.to_owned()),
    }
}

/// Appends the rated form of some issues.
fn rate_into(issues: &Vec<SetupIssue>, severity: Severity, out: &mut Vec<ValidationIssue>)
    ensures
        rated_views(final(out)@) == rated_views(old(out)@) + rated_all(
            issue_views(issues@),
            severity,
        ),
{
    let ghost before = out@;
    let mut i: usize = 0;
    while i < issues.len()
        invariant
            i <= issues@.len(),
            out@.len() == before.len() + i,
            forall|j: int| 0 <= j < before.len() ==> out@[j] == before[j],
            forall|j: int|
                0 <= j < i ==> (#[trigger] out@[before.len() + j])@ == issues@[j]@.rated(severity),
        decreases issues@.len() - i,
    {
        out.push(issues[i].to_validation_issue(severity));
        i = i + 1;
    }
    let ghost expected = rated_views(before) + rated_all(issue_views(issues@), severity);
    assert forall|j: int| 0 <= j < expected.len() implies rated_views(out@)[j] == expected[j] by {
        if j >= before.len() {
            assert(out@[before.len() + (j - before.len())]@ == issues@[j
                - before.len()]@.rated(severity));
        }
    }
    assert(rated_views(out@) =~= expected);
}

/// The report on some errors and warnings.
fn report(errors: Vec<SetupIssue>, warnings: Vec<SetupIssue>) -> (made: SetupValidationReport)
    ensures
        made@ == report_of(issue_views(errors@), issue_views(warnings@)),
{
    let mut issues: Vec<ValidationIssue> = Vec::new();
    rate_into(&errors, Severity::Error, &mut issues);
    rate_into(&warnings, Severity::Warning, &mut issues);
    let ok: bool = errors.len() == 0;
    SetupValidationReport { ok, errors, warnings, issues }
}

/// What an app has to see to on Android.
pub open spec fn android_warnings() -> Seq<SetupIssueView> {
    seq![
        issue_view(
            "android_fgs_type",
            "Ensure the foreground service type is declared in AndroidManifest.xml with the matching permission",
            Platform::Android,
            "Add <foregroundServiceType> to your <service> element and the corresponding <uses-permission> to the manifest",
        ),
        issue_view(
            "android_post_notifications",
            "Android 13+ requires POST_NOTIFICATIONS runtime permission for foreground service notifications",
            Platform::Android,
            "Request android.permission.POST_NOTIFICATIONS at runtime before starting the service on Android 13+",
        ),
        issue_view(
            "android_boot_receiver",
            "Boot recovery requires a registered BroadcastReceiver for BOOT_COMPLETED",
            Platform::Android,
            "Add RECEIVE_BOOT_COMPLETED permission and a <receiver> element for BOOT_COMPLETED in AndroidManifest.xml",
        ),
        issue_view(
            "android_special_use_subtype",
            "When using specialUse FGS type, PROPERTY_SPECIAL_USE_FGS_SUBTYPE must be declared in the manifest",
            Platform::Android,
            "Add <property android:name=\"android.app.PROPERTY_SPECIAL_USE_FGS_SUBTYPE\" android:value=\"your_reason\" /> to the <service> element",
        ),
        issue_view(
            "android_api35_boot_blocked_type",
            "Android 15 (API 35) blocks certain FGS types from starting in BOOT_COMPLETED receivers: dataSync, camera, mediaPlayback, phoneCall, mediaProjection, microphone. Boot recovery will not work with these types",
            Platform::Android,
            "Use a non-blocked FGS type (e.g. connectedDevice, health, location, mediaProcessing) for boot recovery, or handle re-launch via user interaction",
        ),
    ]
}

/// What an app has to see to on iOS.
pub open spec fn ios_warnings() -> Seq<SetupIssueView> {
    seq![
        issue_view(
            "ios_ui_background_modes",
            "UIBackgroundModes must include 'background-fetch' and 'background-processing' in Info.plist",
            Platform::Ios,
            "Add UIBackgroundModes array with 'background-fetch' and 'background-processing' to Info.plist",
        ),
        issue_view(
            "ios_bg_task_identifiers",
            "BGTaskSchedulerPermittedIdentifiers must list your task identifiers in Info.plist",
            Platform::Ios,
            "Add BGTaskSchedulerPermittedIdentifiers array with '$(BUNDLE_ID).bg-refresh' and '$(BUNDLE_ID).bg-processing' to Info.plist",
        ),
        issue_view(
            "ios_background_refresh",
            "Background App Refresh must be enabled in iOS Settings for BGTaskScheduler to work",
            Platform::Ios,
            "Instruct users to enable Background App Refresh in Settings > General > Background App Refresh",
        ),
    ]
}

/// What the host found out about a desktop system that is to run the service
/// as an OS service.
#[derive(Debug, Clone, Copy, PartialEq, Eq, Structural)]
pub struct DesktopProbe {
    /// `/usr/bin/systemctl` exists.
    pub systemctl_in_usr_bin: bool,
    /// `/bin/systemctl` exists.
    pub systemctl_in_bin: bool,
    /// A search of the command path finds `systemctl`.
    pub systemctl_on_path: bool,
    /// The linger file named by the user's number exists.
    pub linger_by_uid: bool,
    /// The linger file named by the user's name exists; `None` if the name is
    /// not known.
    pub linger_by_name: Option<bool>,
}

impl DesktopProbe {
    /// Whether the system has systemd.
    pub open spec fn systemd_found(self) -> bool {
        self.systemctl_in_usr_bin || self.systemctl_in_bin || self.systemctl_on_path
    }

    /// Whether user services outlive the login session.
    pub open spec fn lingering(self) -> bool {
        self.linger_by_uid || self.linger_by_name == Some(true)
    }

    /// Whether the system has systemd.
    pub fn has_systemd(&self) -> (found: bool)
        ensures
            found == self.systemd_found(),
    {
        self.systemctl_in_usr_bin || self.systemctl_in_bin || self.systemctl_on_path
    }

    /// Whether user services outlive the login session.
    pub fn has_linger(&self) -> (lingering: bool)
        ensures
            lingering == self.lingering(),
    {
        self.linger_by_uid || match self.linger_by_name {
            Some(exists) => exists,
            None => false,
        }
    }
}

/// The file whose presence keeps the services of a user alive after logout.
/// `user` is the user's number or name.
pub fn linger_path(user: &str) -> (path: String)
    ensures
        path@ == "/var/lib/systemd/linger/"@ + user@,
{
    concat2("/var/lib/systemd/linger/", user)
}

/// What keeps a desktop system from running the service as an OS service.
pub open spec fn desktop_errors(platform: Platform, probe: DesktopProbe) -> Seq<SetupIssueView> {
    if platform == Platform::Linux && !probe.systemd_found() {
        seq![
            issue_view(
                "desktop_systemd_missing",
                "systemctl not found — OS service mode requires systemd",
                Platform::Linux,
                "Install systemd or use inProcess mode",
            ),
        ]
    } else {
        seq![]
    }
}

/// What impairs an OS service on a desktop system.
pub open spec fn desktop_warnings(platform: Platform, probe: DesktopProbe) -> Seq<SetupIssueView> {
    if platform == Platform::Linux && probe.systemd_found() && !probe.lingering() {
        seq![
            issue_view(
                "desktop_systemd_no_linger",
                "systemd lingering is not enabled — user services will stop when you log out",
                Platform::Linux,
                "Run 'loginctl enable-linger' to keep user services alive after logout",
            ),
        ]
    } else if platform == Platform::Macos {
        seq![
            issue_view(
                "desktop_macos_sandbox",
                "OS service mode is incompatible with macOS App Sandbox. Ensure your app is not sandboxed or use inProcess mode",
                Platform::Macos,
                "Disable App Sandbox in your app's entitlements, or use desktopServiceMode: 'inProcess'",
            ),
        ]
    } else {
        seq![]
    }
}

/// The report for a platform. `probe` is there where the service may run as a
/// desktop OS service; without it a desktop system has no prerequisites.
pub open spec fn platform_report(platform: Platform, probe: Option<DesktopProbe>) -> ReportView {
    match (platform, probe) {
        (Platform::Android, _) => report_of(seq![], android_warnings()),
        (Platform::Ios, _) => report_of(seq![], ios_warnings()),
        (_, Some(found)) => report_of(
            desktop_errors(platform, found),
            desktop_warnings(platform, found),
        ),
        (_, None) => report_of(seq![], seq![]),
    }
}

/// Validates the prerequisites of background execution.
pub struct SetupValidator;

impl SetupValidator {
    /// The checks for a platform, where the service never runs as a desktop OS
    /// service.
    pub fn validate(platform: Platform) -> (made: SetupValidationReport)
        ensures
            made@ == platform_report(platform, None),
    {
        SetupValidator::validate_with_probe(platform, None)
    }

    /// The checks for a platform. `probe` says what the host found out about a
    /// desktop system on which the service may run as an OS service.
    pub fn validate_with_probe(platform: Platform, probe: Option<DesktopProbe>) -> (made:
        SetupValidationReport)
        ensures
            made@ == platform_report(platform, probe),
    {
        match platform {
            Platform::Android => SetupValidator::android_checks(),
            Platform::Ios => SetupValidator::ios_checks(),
            _ => SetupValidator::desktop_checks(platform, probe),
        }
    }

    /// The checks for Android.
    pub fn android_checks() -> (made: SetupValidationReport)
        ensures
            made@ == report_of(seq![], android_warnings()),
    {
        let mut warnings: Vec<SetupIssue> = Vec::new();
        warnings.push(
            issue(
                "android_fgs_type",
                "Ensure the foreground service type is declared in AndroidManifest.xml with the matching permission",
                Platform::Android,
                "Add <foregroundServiceType> to your <service> element and the corresponding <uses-permission> to the manifest",
            ),
        );
        warnings.push(
            issue(
                "android_post_notifications",
                "Android 13+ requires POST_NOTIFICATIONS runtime permission for foreground service notifications",
                Platform::Android,
                "Request android.permission.POST_NOTIFICATIONS at runtime before starting the service on Android 13+",
            ),
        );
        warnings.push(
            issue(
                "android_boot_receiver",
                "Boot recovery requires a registered BroadcastReceiver for BOOT_COMPLETED",
                Platform::Android,
                "Add RECEIVE_BOOT_COMPLETED permission and a <receiver> element for BOOT_COMPLETED in AndroidManifest.xml",
            ),
        );
        warnings.push(
            issue(
                "android_special_use_subtype",
                "When using specialUse FGS type, PROPERTY_SPECIAL_USE_FGS_SUBTYPE must be declared in the manifest",
                Platform::Android,
                "Add <property android:name=\"android.app.PROPERTY_SPECIAL_USE_FGS_SUBTYPE\" android:value=\"your_reason\" /> to the <service> element",
            ),
        );
        warnings.push(
            issue(
                "android_api35_boot_blocked_type",
                "Android 15 (API 35) blocks certain FGS types from starting in BOOT_COMPLETED receivers: dataSync, camera, mediaPlayback, phoneCall, mediaProjection, microphone. Boot recovery will not work with these types",
                Platform::Android,
                "Use a non-blocked FGS type (e.g. connectedDevice, health, location, mediaProcessing) for boot recovery, or handle re-launch via user interaction",
            ),
        );
        let errors: Vec<SetupIssue> = Vec::new();
        assert(issue_views(errors@) =~= seq![]);
        assert(issue_views(warnings@) =~= android_warnings());
        report(errors, warnings)
    }

    /// The checks for iOS.
    pub fn ios_checks() -> (made: SetupValidationReport)
        ensures
            made@ == report_of(seq![], ios_warnings()),
    {
        let mut warnings: Vec<SetupIssue> = Vec::new();
        warnings.push(
            issue(
                "ios_ui_background_modes",
                "UIBackgroundModes must include 'background-fetch' and 'background-processing' in Info.plist",
                Platform::Ios,
                "Add UIBackgroundModes array with 'background-fetch' and 'background-processing' to Info.plist",
            ),
        );
        warnings.push(
            issue(
                "ios_bg_task_identifiers",
                "BGTaskSchedulerPermittedIdentifiers must list your task identifiers in Info.plist",
                Platform::Ios,
                "Add BGTaskSchedulerPermittedIdentifiers array with '$(BUNDLE_ID).bg-refresh' and '$(BUNDLE_ID).bg-processing' to Info.plist",
            ),
        );
        warnings.push(
            issue(
                "ios_background_refresh",
                "Background App Refresh must be enabled in iOS Settings for BGTaskScheduler to work",
                Platform::Ios,
                "Instruct users to enable Background App Refresh in Settings > General > Background App Refresh",
            ),
        );
        let errors: Vec<SetupIssue> = Vec::new();
        assert(issue_views(errors@) =~= seq![]);
        assert(issue_views(warnings@) =~= ios_warnings());
        report(errors, warnings)
    }

    /// The checks for a desktop system, which has prerequisites only where the
    /// service may run as an OS service.
    pub fn desktop_checks(platform: Platform, probe: Option<DesktopProbe>) -> (made:
        SetupValidationReport)
        ensures
            made@ == (match probe {
                Some(found) => report_of(
                    desktop_errors(platform, found),
                    desktop_warnings(platform, found),
                ),
                None => report_of(seq![], seq![]),
            }),
    {
        let mut errors: Vec<SetupIssue> = Vec::new();
        let mut warnings: Vec<SetupIssue> = Vec::new();
        if let Some(found) = probe {
            if platform == Platform::Linux {
                if !found.has_systemd() {
                    errors.push(
                        issue(
                            "desktop_systemd_missing",
                            "systemctl not found — OS service mode requires systemd",
                            Platform::Linux,
                            "Install systemd or use inProcess mode",
                        ),
                    );
                } else if !found.has_linger() {
                    warnings.push(
                        issue(
                            "desktop_systemd_no_linger",
                            "systemd lingering is not enabled — user services will stop when you log out",
                            Platform::Linux,
                            "Run 'loginctl enable-linger' to keep user services alive after logout",
                        ),
                    );
                }
            }
            if platform == Platform::Macos {
                warnings.push(
                    issue(
                        "desktop_macos_sandbox",
                        "OS service mode is incompatible with macOS App Sandbox. Ensure your app is not sandboxed or use inProcess mode",
                        Platform::Macos,
                        "Disable App Sandbox in your app's entitlements, or use desktopServiceMode: 'inProcess'",
                    ),
                );
            }
            assert(issue_views(errors@) =~= desktop_errors(platform, found));
            assert(issue_views(warnings@) =~= desktop_warnings(platform, found));
        } else {
            assert(issue_views(errors@) =~= seq![]);
            assert(issue_views(warnings@) =~= seq![]);
        }
        report(errors, warnings)
    }
}

/// A report is fine exactly when it has no error, whatever it warns of; and its
/// rated issues are the errors followed by the warnings, one for one.
pub proof fn report_is_consistent(platform: Platform, probe: Option<DesktopProbe>)
    ensures
        ({
            let r = platform_report(platform, probe);
            &&& r.ok <==> r.errors.len() == 0
            &&& r.issues.len() == r.errors.len() + r.warnings.len()
            &&& forall|i: int|
                0 <= i < r.errors.len() ==> #[trigger] r.issues[i] == r.errors[i].rated(
                    Severity::Error,
                )
            &&& forall|i: int|
                0 <= i < r.warnings.len() ==> r.issues[r.errors.len() + i]
                    == (#[trigger] r.warnings[i]).rated(Severity::Warning)
        }),
{
}

/// Every issue in a report is about the platform that was asked for and comes
/// with a suggested fix.
pub proof fn issues_concern_their_platform(platform: Platform, probe: Option<DesktopProbe>)
    ensures
        ({
            let r = platform_report(platform, probe);
            forall|i: int|
                0 <= i < r.issues.len() ==> (#[trigger] r.issues[i]).platform == platform
                    && r.issues[i].fix is Some
        }),
{
}

/// Only a Linux system without systemd, asked to run an OS service, has errors.
pub proof fn errors_only_without_systemd(platform: Platform, probe: Option<DesktopProbe>)
    ensures
        platform_report(platform, probe).ok <==> !(platform == Platform::Linux && probe is Some
            && !probe->Some_0.systemd_found()),
{
}

/// A report holds its errors and then its warnings as rated issues, each with
/// what it says unchanged, is fine exactly without errors, and speaks of the
/// platform that was asked for.
pub proof fn report_rates_what_it_found(
    platform: Platform,
    probe: Option<DesktopProbe>,
    report: SetupValidationReport,
)
    requires
        call_ensures(SetupValidator::validate_with_probe, (platform, probe), report),
    ensures
        report.ok <==> report.errors@.len() == 0,
        report.issues@.len() == report.errors@.len() + report.warnings@.len(),
        forall|i: int|
            0 <= i < report.errors@.len() ==> {
                let (rated, issue) = (#[trigger] report.issues@[i], report.errors@[i]);
                &&& rated.severity is Error && rated.code@ == issue.code@
                &&& rated.message@ == issue.message@ && rated.platform == platform
                &&& rated.fix is Some && issue.fix is Some
                &&& rated.fix->Some_0@ == issue.fix->Some_0@
            },
        forall|i: int|
            0 <= i < report.warnings@.len() ==> {
                let (rated, issue) = (
                    report.issues@[report.errors@.len() + i],
                    #[trigger] report.warnings@[i],
                );
                &&& rated.severity is Warning && rated.code@ == issue.code@
                &&& rated.message@ == issue.message@ && rated.platform == platform
                &&& rated.fix is Some && issue.fix is Some
                &&& rated.fix->Some_0@ == issue.fix->Some_0@
            },
        forall|i: int|
            0 <= i < report.errors@.len() ==> (#[trigger] report.errors@[i]).platform == platform,
        forall|i: int|
            0 <= i < report.warnings@.len() ==> (#[trigger] report.warnings@[i]).platform
                == platform,
{
    let e = report.errors@.len();
    assert(report@.issues.len() == report.issues@.len());
    assert(report@.errors.len() == e);
    assert forall|i: int| 0 <= i < e implies {
        let (rated, issue) = (#[trigger] report.issues@[i], report.errors@[i]);
        &&& rated.severity is Error && rated.code@ == issue.code@
        &&& rated.message@ == issue.message@ && rated.platform == platform
        &&& rated.fix is Some && issue.fix is Some
        &&& rated.fix->Some_0@ == issue.fix->Some_0@
    } by {
        assert(report@.issues[i] == report.issues@[i]@);
        assert(report@.errors[i] == report.errors@[i]@);
        assert(report@.issues[i] == report@.errors[i].rated(Severity::Error));
    }
    assert forall|i: int| 0 <= i < report.warnings@.len() implies {
        let (rated, issue) = (report.issues@[e + i], #[trigger] report.warnings@[i]);
        &&& rated.severity is Warning && rated.code@ == issue.code@
        &&& rated.message@ == issue.message@ && rated.platform == platform
        &&& rated.fix is Some && issue.fix is Some
        &&& rated.fix->Some_0@ == issue.fix->Some_0@
    } by {
        assert(report@.issues[e + i] == report.issues@[e + i]@);
        assert(report@.warnings[i] == report.warnings@[i]@);
        assert(report@.issues[e + i] == report@.warnings[i].rated(Severity::Warning));
    }
    assert forall|i: int| 0 <= i < e implies (#[trigger] report.errors@[i]).platform == platform by {
        assert(report@.errors[i] == report.errors@[i]@);
    }
    assert forall|i: int|
        0 <= i < report.warnings@.len() implies (#[trigger] report.warnings@[i]).platform
        == platform by {
        assert(report@.warnings[i] == report.warnings@[i]@);
    }
}

/// Android has no errors and these five warnings, whatever a desktop system
/// would find.
pub proof fn android_warns_of(probe: Option<DesktopProbe>, report: SetupValidationReport)
    requires
        call_ensures(SetupValidator::validate_with_probe, (Platform::Android, probe), report),
    ensures
        report.ok && report.errors@.len() == 0 && report.warnings@.len() == 5,
        report.warnings@[0].code@ == "android_fgs_type"@,
        report.warnings@[0].message@
            == "Ensure the foreground service type is declared in AndroidManifest.xml with the matching permission"@,
        report.warnings@[0].fix matches Some(fix) && fix@
            == "Add <foregroundServiceType> to your <service> element and the corresponding <uses-permission> to the manifest"@,
        report.warnings@[1].code@ == "android_post_notifications"@,
        report.warnings@[1].message@
            == "Android 13+ requires POST_NOTIFICATIONS runtime permission for foreground service notifications"@,
        report.warnings@[1].fix matches Some(fix) && fix@
            == "Request android.permission.POST_NOTIFICATIONS at runtime before starting the service on Android 13+"@,
        report.warnings@[2].code@ == "android_boot_receiver"@,
        report.warnings@[2].message@
            == "Boot recovery requires a registered BroadcastReceiver for BOOT_COMPLETED"@,
        report.warnings@[2].fix matches Some(fix) && fix@
            == "Add RECEIVE_BOOT_COMPLETED permission and a <receiver> element for BOOT_COMPLETED in AndroidManifest.xml"@,
        report.warnings@[3].code@ == "android_special_use_subtype"@,
        report.warnings@[3].message@
            == "When using specialUse FGS type, PROPERTY_SPECIAL_USE_FGS_SUBTYPE must be declared in the manifest"@,
        report.warnings@[3].fix matches Some(fix) && fix@
            == "Add <property android:name=\"android.app.PROPERTY_SPECIAL_USE_FGS_SUBTYPE\" android:value=\"your_reason\" /> to the <service> element"@,
        report.warnings@[4].code@ == "android_api35_boot_blocked_type"@,
        report.warnings@[4].message@
            == "Android 15 (API 35) blocks certain FGS types from starting in BOOT_COMPLETED receivers: dataSync, camera, mediaPlayback, phoneCall, mediaProjection, microphone. Boot recovery will not work with these types"@,
        report.warnings@[4].fix matches Some(fix) && fix@
            == "Use a non-blocked FGS type (e.g. connectedDevice, health, location, mediaProcessing) for boot recovery, or handle re-launch via user interaction"@,
{
    assert(report@.errors.len() == report.errors@.len());
    assert(report@.warnings.len() == report.warnings@.len());
    assert(report.warnings@[0]@ == report@.warnings[0]);
    assert(report.warnings@[1]@ == report@.warnings[1]);
    assert(report.warnings@[2]@ == report@.warnings[2]);
    assert(report.warnings@[3]@ == report@.warnings[3]);
    assert(report.warnings@[4]@ == report@.warnings[4]);
}

/// iOS has no errors and these three warnings, whatever a desktop system would
/// find.
pub proof fn ios_warns_of(probe: Option<DesktopProbe>, report: SetupValidationReport)
    requires
        call_ensures(SetupValidator::validate_with_probe, (Platform::Ios, probe), report),
    ensures
        report.ok && report.errors@.len() == 0 && report.warnings@.len() == 3,
        report.warnings@[0].code@ == "ios_ui_background_modes"@,
        report.warnings@[0].message@
            == "UIBackgroundModes must include 'background-fetch' and 'background-processing' in Info.plist"@,
        report.warnings@[0].fix matches Some(fix) && fix@
            == "Add UIBackgroundModes array with 'background-fetch' and 'background-processing' to Info.plist"@,
        report.warnings@[1].code@ == "ios_bg_task_identifiers"@,
        report.warnings@[1].message@
            == "BGTaskSchedulerPermittedIdentifiers must list your task identifiers in Info.plist"@,
        report.warnings@[1].fix matches Some(fix) && fix@
            == "Add BGTaskSchedulerPermittedIdentifiers array with '$(BUNDLE_ID).bg-refresh' and '$(BUNDLE_ID).bg-processing' to Info.plist"@,
        report.warnings@[2].code@ == "ios_background_refresh"@,
        report.warnings@[2].message@
            == "Background App Refresh must be enabled in iOS Settings for BGTaskScheduler to work"@,
        report.warnings@[2].fix matches Some(fix) && fix@
            == "Instruct users to enable Background App Refresh in Settings > General > Background App Refresh"@,
{
    assert(report@.errors.len() == report.errors@.len());
    assert(report@.warnings.len() == report.warnings@.len());
    assert(report.warnings@[0]@ == report@.warnings[0]);
    assert(report.warnings@[1]@ == report@.warnings[1]);
    assert(report.warnings@[2]@ == report@.warnings[2]);
}

/// A desktop system that is not to run an OS service needs nothing. To run one,
/// Linux needs `systemctl`, in one of two places or on the command path, which
/// is an error to lack, and lingering, by number or by name, which is a warning
/// to lack; macOS always warns of its sandbox; other systems need nothing.
pub proof fn desktop_needs(
    platform: Platform,
    probe: Option<DesktopProbe>,
    report: SetupValidationReport,
)
    requires
        platform != Platform::Android && platform != Platform::Ios,
        call_ensures(SetupValidator::validate_with_probe, (platform, probe), report),
    ensures
        ({
            let linux = platform == Platform::Linux && probe is Some;
            let found = probe->Some_0;
            let systemd = found.systemctl_in_usr_bin || found.systemctl_in_bin
                || found.systemctl_on_path;
            let lingers = found.linger_by_uid || found.linger_by_name == Some(true);
            let macos = platform == Platform::Macos && probe is Some;
            &&& report.errors@.len() == (if linux && !systemd { 1int } else { 0int })
            &&& report.warnings@.len() == (if (linux && systemd && !lingers) || macos {
                1int
            } else {
                0int
            })
            &&& report.ok <==> !(linux && !systemd)
            &&& linux && !systemd ==> {
                let e = report.errors@[0];
                &&& e.code@ == "desktop_systemd_missing"@
                &&& e.message@ == "systemctl not found — OS service mode requires systemd"@
                &&& e.fix matches Some(fix) && fix@ == "Install systemd or use inProcess mode"@
            }
            &&& linux && systemd && !lingers ==> {
                let w = report.warnings@[0];
                &&& w.code@ == "desktop_systemd_no_linger"@
                &&& w.message@
                    == "systemd lingering is not enabled — user services will stop when you log out"@
                &&& w.fix matches Some(fix) && fix@
                    == "Run 'loginctl enable-linger' to keep user services alive after logout"@
            }
            &&& macos ==> {
                let w = report.warnings@[0];
                &&& w.code@ == "desktop_macos_sandbox"@
                &&& w.message@
                    == "OS service mode is incompatible with macOS App Sandbox. Ensure your app is not sandboxed or use inProcess mode"@
                &&& w.fix matches Some(fix) && fix@
                    == "Disable App Sandbox in your app's entitlements, or use desktopServiceMode: 'inProcess'"@
            }
        }),
{
    assert(report@.errors.len() == report.errors@.len());
    assert(report@.warnings.len() == report.warnings@.len());
    if report.errors@.len() > 0 {
        assert(report.errors@[0]@ == report@.errors[0]);
    }
    if report.warnings@.len() > 0 {
        assert(report.warnings@[0]@ == report@.warnings[0]);
    }
}

/// Each set of checks is what validation runs for its platform, and validating
/// without a probe is validating a system that runs no OS service.
pub proof fn validation_runs_the_checks_of_the_platform(
    platform: Platform,
    probe: Option<DesktopProbe>,
    report: SetupValidationReport,
    plain: SetupValidationReport,
    unprobed: SetupValidationReport,
    android: SetupValidationReport,
    ios: SetupValidationReport,
    desktop: SetupValidationReport,
)
    requires
        call_ensures(SetupValidator::validate_with_probe, (platform, probe), report),
        call_ensures(SetupValidator::validate, (platform,), plain),
        call_ensures(SetupValidator::validate_with_probe, (platform, None), unprobed),
        call_ensures(SetupValidator::android_checks, (), android),
        call_ensures(SetupValidator::ios_checks, (), ios),
        call_ensures(SetupValidator::desktop_checks, (platform, probe), desktop),
    ensures
        plain@ == unprobed@,
        platform == Platform::Android ==> report@ == android@,
        platform == Platform::Ios ==> report@ == ios@,
        platform != Platform::Android && platform != Platform::Ios ==> report@ == desktop@,
{
}

/// systemd is there if `systemctl` was found anywhere, and services linger if
/// either linger file exists; each is told from its own findings.
pub proof fn findings_decide(
    probe: DesktopProbe,
    systemd: bool,
    lingers: bool,
    user: &str,
    path: String,
)
    requires
        call_ensures(DesktopProbe::has_systemd, (&probe,), systemd),
        call_ensures(DesktopProbe::has_linger, (&probe,), lingers),
        call_ensures(linger_path, (user,), path),
    ensures
        systemd <==> probe.systemctl_in_usr_bin || probe.systemctl_in_bin
            || probe.systemctl_on_path,
        lingers <==> probe.linger_by_uid || probe.linger_by_name == Some(true),
        path@ == "/var/lib/systemd/linger/"@ + user@,
{
}

} // verus!
