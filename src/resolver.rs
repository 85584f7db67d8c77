//! Merging the expected, detected and user-entered layouts of a destination
//! into one final folder per category.

use vstd::prelude::*;
use crate::views::opt_view;
use crate::model::{
    Confidence, LayoutDetectionResult, LayoutPaths, PathResolution, PathResolutionSource,
    ResolvedDeploymentPaths, ResolvedPathDetails, ResolvedPathSource, ScanSettings,
    UserPathOverrideEntry,
};

verus! {

/// The five kinds of content that land in their own folder on a destination.
#[derive(Clone, Copy, Debug, PartialEq, Eq, Structural)]
pub enum PathCategory {
    Bios,
    Roms,
    Saves,
    States,
    Screenshots,
}

/// Which precedence rule decided a category.
#[derive(Clone, Copy, Debug, PartialEq, Eq, Structural)]
pub enum ResolutionRule {
    UserOverride,
    TrustedScan,
    ProfileDefault,
    ScanFallback,
    Convention,
}

/// A source supplies a category when it holds a non-empty path for it.
pub open spec fn supplied(p: Option<Seq<char>>) -> bool {
    p is Some && p->0.len() > 0
}

pub open spec fn layout_entry(l: LayoutPaths, c: PathCategory) -> Option<Seq<char>> {
    match c {
        PathCategory::Bios => opt_view(l.bios),
        PathCategory::Roms => opt_view(l.roms),
        PathCategory::Saves => opt_view(l.saves),
        PathCategory::States => opt_view(l.states),
        PathCategory::Screenshots => opt_view(l.screenshots),
    }
}

/// What an optional override layout holds for a category.
pub open spec fn override_entry(l: Option<LayoutPaths>, c: PathCategory) -> Option<Seq<char>> {
    match l {
        Some(l) => layout_entry(l, c),
        None => None,
    }
}

/// Conventional folder name used when no source names a folder.
pub open spec fn default_folder(c: PathCategory) -> Seq<char> {
    match c {
        PathCategory::Bios => "bios"@,
        PathCategory::Roms => "roms"@,
        PathCategory::Saves => "saves"@,
        PathCategory::States => "states"@,
        PathCategory::Screenshots => "screenshots"@,
    }
}

pub open spec fn join_path(root: Seq<char>, name: Seq<char>) -> Seq<char> {
    root + "/"@ + name
}

/// The precedence order, highest first.
pub open spec fn rule_for(
    expected: Option<Seq<char>>,
    detected: Option<Seq<char>>,
    user: Option<Seq<char>>,
    trust_detected: bool,
) -> ResolutionRule {
    if supplied(user) {
        ResolutionRule::UserOverride
    } else if trust_detected && supplied(detected) {
        ResolutionRule::TrustedScan
    } else if supplied(expected) {
        ResolutionRule::ProfileDefault
    } else if supplied(detected) {
        ResolutionRule::ScanFallback
    } else {
        ResolutionRule::Convention
    }
}

/// Final path, source tag and reason of one category.
pub open spec fn category_resolution(
    root: Seq<char>,
    folder: Seq<char>,
    expected: Option<Seq<char>>,
    detected: Option<Seq<char>>,
    user: Option<Seq<char>>,
    trust_detected: bool,
) -> (Seq<char>, PathResolutionSource, Seq<char>) {
    match rule_for(expected, detected, user, trust_detected) {
        ResolutionRule::UserOverride => (user->0, PathResolutionSource::User, "user override"@),
        ResolutionRule::TrustedScan => (
            detected->0,
            PathResolutionSource::Detected,
            "destination scan"@,
        ),
        ResolutionRule::ProfileDefault => (
            expected->0,
            PathResolutionSource::Profile,
            "device profile default"@,
        ),
        ResolutionRule::ScanFallback => (
            detected->0,
            PathResolutionSource::Detected,
            "fallback to scan result"@,
        ),
        ResolutionRule::Convention => (
            join_path(root, folder),
            PathResolutionSource::Fallback,
            "no source available, using convention default"@,
        ),
    }
}

/// The resolution owed for category `c`.
pub open spec fn expected_category(
    root: Seq<char>,
    expected: LayoutPaths,
    detected: LayoutPaths,
    user: Option<LayoutPaths>,
    trust_detected: bool,
    c: PathCategory,
) -> (Seq<char>, PathResolutionSource, Seq<char>) {
    category_resolution(
        root,
        default_folder(c),
        layout_entry(expected, c),
        layout_entry(detected, c),
        override_entry(user, c),
        trust_detected,
    )
}

pub open spec fn resolution_view(p: PathResolution) -> (Seq<char>, PathResolutionSource, Seq<char>) {
    (p.final_path@, p.source, p.reason@)
}

pub open spec fn detail_of(r: ResolvedDeploymentPaths, c: PathCategory) -> PathResolution {
    match c {
        PathCategory::Bios => r.resolution.bios,
        PathCategory::Roms => r.resolution.roms,
        PathCategory::Saves => r.resolution.saves,
        PathCategory::States => r.resolution.states,
        PathCategory::Screenshots => r.resolution.screenshots,
    }
}

/// The top-level final path that `r` gives for category `c`.
pub open spec fn final_of(r: ResolvedDeploymentPaths, c: PathCategory) -> Seq<char> {
    match c {
        PathCategory::Bios => r.bios@,
        PathCategory::Roms => r.roms@,
        PathCategory::Saves => r.saves@,
        PathCategory::States => r.states@,
        PathCategory::Screenshots => r.screenshots@,
    }
}

pub open spec fn confidence_rank(c: Confidence) -> int {
    match c {
        Confidence::High => 3,
        Confidence::Medium => 2,
        Confidence::Low => 1,
        Confidence::Unknown => 0,
    }
}

pub open spec fn min_confidence(a: Confidence, b: Confidence) -> Confidence {
    if confidence_rank(a) <= confidence_rank(b) {
        a
    } else {
        b
    }
}

/// How much a category's source can be trusted.
pub open spec fn source_confidence(s: PathResolutionSource, scan: Confidence) -> Confidence {
    match s {
        PathResolutionSource::Profile => Confidence::High,
        PathResolutionSource::User => Confidence::High,
        PathResolutionSource::Detected => scan,
        PathResolutionSource::Fallback => Confidence::Unknown,
    }
}

pub open spec fn source_of(r: ResolvedDeploymentPaths, c: PathCategory) -> PathResolutionSource {
    detail_of(r, c).source
}

/// Lowest confidence over the five categories.
pub open spec fn aggregate_confidence(r: ResolvedDeploymentPaths, scan: Confidence) -> Confidence {
    min_confidence(
        source_confidence(source_of(r, PathCategory::Bios), scan),
        min_confidence(
            source_confidence(source_of(r, PathCategory::Roms), scan),
            min_confidence(
                source_confidence(source_of(r, PathCategory::Saves), scan),
                min_confidence(
                    source_confidence(source_of(r, PathCategory::States), scan),
                    source_confidence(source_of(r, PathCategory::Screenshots), scan),
                ),
            ),
        ),
    )
}

/// The aggregate tag that one shared category tag stands for.
pub open spec fn shared_source(s: PathResolutionSource) -> ResolvedPathSource {
    match s {
        PathResolutionSource::Profile => ResolvedPathSource::Expected,
        PathResolutionSource::Detected => ResolvedPathSource::Detected,
        PathResolutionSource::User => ResolvedPathSource::UserOverride,
        PathResolutionSource::Fallback => ResolvedPathSource::Merged,
    }
}

/// `Merged` unless all five categories carry the same tag.
pub open spec fn aggregate_source(r: ResolvedDeploymentPaths) -> ResolvedPathSource {
    let s = source_of(r, PathCategory::Bios);
    if source_of(r, PathCategory::Roms) == s && source_of(r, PathCategory::Saves) == s
        && source_of(r, PathCategory::States) == s && source_of(r, PathCategory::Screenshots)
        == s {
        shared_source(s)
    } else {
        ResolvedPathSource::Merged
    }
}

/// `r` is the resolution of the given inputs.
pub open spec fn resolves_to(
    r: ResolvedDeploymentPaths,
    root: Seq<char>,
    expected: LayoutPaths,
    detected: LayoutPaths,
    scan: Confidence,
    user: Option<LayoutPaths>,
    trust_detected: bool,
) -> bool {
    &&& forall|c: PathCategory|
        #![trigger detail_of(r, c)]
        resolution_view(detail_of(r, c)) == expected_category(
            root,
            expected,
            detected,
            user,
            trust_detected,
            c,
        ) && final_of(r, c) == detail_of(r, c).final_path@
    &&& r.confidence == aggregate_confidence(r, scan)
    &&& r.source == aggregate_source(r)
}

/// Everything a resolution carries, as mathematical values.
pub open spec fn resolved_view(r: ResolvedDeploymentPaths) -> (
    Seq<Seq<char>>,
    Seq<(Seq<char>, PathResolutionSource, Seq<char>)>,
    Confidence,
    ResolvedPathSource,
) {
    (
        seq![r.bios@, r.roms@, r.saves@, r.states@, r.screenshots@],
        seq![
            resolution_view(r.resolution.bios),
            resolution_view(r.resolution.roms),
            resolution_view(r.resolution.saves),
            resolution_view(r.resolution.states),
            resolution_view(r.resolution.screenshots),
        ],
        r.confidence,
        r.source,
    )
}

fn has_value(p: &Option<String>) -> (r: bool)
    ensures
        r == supplied(opt_view(*p)),
{
    match p {
        Some(s) => !s.as_str().is_empty(),
        None => false,
    }
}

fn convention_path(root: &str, folder: &str) -> (r: String)
    ensures
        r@ == join_path(root@, folder@),
{
    let mut p = String::from_str(root);
    p.append("/");
    p.append(folder);
    p
}

fn take_path(p: &Option<String>) -> (r: String)
    requires
        p is Some,
    ensures
        r@ == p->0@,
{
    match p {
        Some(s) => s.clone(),
        None => String::new(),
    }
}

/// Resolves one category by the precedence order.
pub fn resolve_category(
    root: &str,
    folder: &str,
    expected: &Option<String>,
    detected: &Option<String>,
    user: &Option<String>,
    trust_detected: bool,
) -> (r: PathResolution)
    ensures
        resolution_view(r) == category_resolution(
            root@,
            folder@,
            opt_view(*expected),
            opt_view(*detected),
            opt_view(*user),
            trust_detected,
        ),
{
    if has_value(user) {
        PathResolution {
            final_path: take_path(user),
            source: PathResolutionSource::User,
            reason: String::from_str("user override"),
        }
    } else if trust_detected && has_value(detected) {
        PathResolution {
            final_path: take_path(detected),
            source: PathResolutionSource::Detected,
            reason: String::from_str("destination scan"),
        }
    } else if has_value(expected) {
        PathResolution {
            final_path: take_path(expected),
            source: PathResolutionSource::Profile,
            reason: String::from_str("device profile default"),
        }
    } else if has_value(detected) {
        PathResolution {
            final_path: take_path(detected),
            source: PathResolutionSource::Detected,
            reason: String::from_str("fallback to scan result"),
        }
    } else {
        PathResolution {
            final_path: convention_path(root, folder),
            source: PathResolutionSource::Fallback,
            reason: String::from_str("no source available, using convention default"),
        }
    }
}

pub fn lower_confidence(a: Confidence, b: Confidence) -> (r: Confidence)
    ensures
        r == min_confidence(a, b),
{
    let ra: u8 = match a {
        Confidence::High => 3,
        Confidence::Medium => 2,
        Confidence::Low => 1,
        Confidence::Unknown => 0,
    };
    let rb: u8 = match b {
        Confidence::High => 3,
        Confidence::Medium => 2,
        Confidence::Low => 1,
        Confidence::Unknown => 0,
    };
    if ra <= rb {
        a
    } else {
        b
    }
}

pub fn confidence_of_source(s: PathResolutionSource, scan: Confidence) -> (r: Confidence)
    ensures
        r == source_confidence(s, scan),
{
    match s {
        PathResolutionSource::Profile => Confidence::High,
        PathResolutionSource::User => Confidence::High,
        PathResolutionSource::Detected => scan,
        PathResolutionSource::Fallback => Confidence::Unknown,
    }
}

fn entry_of(l: &Option<LayoutPaths>, c: PathCategory) -> (r: Option<String>)
    ensures
        opt_view(r) == override_entry(*l, c),
{
    match l {
        Some(l) => match c {
            PathCategory::Bios => l.bios.clone(),
            PathCategory::Roms => l.roms.clone(),
            PathCategory::Saves => l.saves.clone(),
            PathCategory::States => l.states.clone(),
            PathCategory::Screenshots => l.screenshots.clone(),
        },
        None => None,
    }
}

/// Merges the three layouts of a destination into one final path per
/// category, with an aggregate confidence and source tag. Pure: the result
/// depends on the arguments alone.
pub fn resolve(
    destination_root: &str,
    expected: &LayoutPaths,
    detected: &LayoutPaths,
    detected_confidence: Confidence,
    user_override: &Option<LayoutPaths>,
    trust_detected_over_expected: bool,
) -> (r: ResolvedDeploymentPaths)
    ensures
        resolves_to(
            r,
            destination_root@,
            *expected,
            *detected,
            detected_confidence,
            *user_override,
            trust_detected_over_expected,
        ),
{
    let trust = trust_detected_over_expected;
    let ub = entry_of(user_override, PathCategory::Bios);
    let ur = entry_of(user_override, PathCategory::Roms);
    let usa = entry_of(user_override, PathCategory::Saves);
    let ust = entry_of(user_override, PathCategory::States);
    let usc = entry_of(user_override, PathCategory::Screenshots);
    let bios = resolve_category(destination_root, "bios", &expected.bios, &detected.bios, &ub, trust);
    let roms = resolve_category(destination_root, "roms", &expected.roms, &detected.roms, &ur, trust);
    let saves = resolve_category(
        destination_root,
        "saves",
        &expected.saves,
        &detected.saves,
        &usa,
        trust,
    );
    let states = resolve_category(
        destination_root,
        "states",
        &expected.states,
        &detected.states,
        &ust,
        trust,
    );
    let shots = resolve_category(
        destination_root,
        "screenshots",
        &expected.screenshots,
        &detected.screenshots,
        &usc,
        trust,
    );
    let scan = detected_confidence;
    let confidence = lower_confidence(
        confidence_of_source(bios.source, scan),
        lower_confidence(
            confidence_of_source(roms.source, scan),
            lower_confidence(
                confidence_of_source(saves.source, scan),
                lower_confidence(
                    confidence_of_source(states.source, scan),
                    confidence_of_source(shots.source, scan),
                ),
            ),
        ),
    );
    let s = bios.source;
    let source = if roms.source == s && saves.source == s && states.source == s && shots.source
        == s {
        match s {
            PathResolutionSource::Profile => ResolvedPathSource::Expected,
            PathResolutionSource::Detected => ResolvedPathSource::Detected,
            PathResolutionSource::User => ResolvedPathSource::UserOverride,
            PathResolutionSource::Fallback => ResolvedPathSource::Merged,
        }
    } else {
        ResolvedPathSource::Merged
    };
    let r = ResolvedDeploymentPaths {
        bios: bios.final_path.clone(),
        roms: roms.final_path.clone(),
        saves: saves.final_path.clone(),
        states: states.final_path.clone(),
        screenshots: shots.final_path.clone(),
        source,
        confidence,
        resolution: ResolvedPathDetails { bios, roms, saves, states, screenshots: shots },
    };
    assert forall|c: PathCategory|
        #![trigger detail_of(r, c)]
        resolution_view(detail_of(r, c)) == expected_category(
            destination_root@,
            *expected,
            *detected,
            *user_override,
            trust,
            c,
        ) && final_of(r, c) == detail_of(r, c).final_path@ by {
        match c {
            PathCategory::Bios => {},
            PathCategory::Roms => {},
            PathCategory::Saves => {},
            PathCategory::States => {},
            PathCategory::Screenshots => {},
        }
    }
    r
}

pub open spec fn empty_layout() -> LayoutPaths {
    LayoutPaths { bios: None, roms: None, saves: None, states: None, screenshots: None }
}

/// The layout a detection found; nothing where it found none.
pub open spec fn detected_layout(d: LayoutDetectionResult) -> LayoutPaths {
    match d.detected_paths {
        Some(l) => l,
        None => empty_layout(),
    }
}

/// The saved override that applies: only where the settings keep overrides.
pub open spec fn applied_override(saved: Option<UserPathOverrideEntry>, settings: ScanSettings) -> Option<
    LayoutPaths,
> {
    if settings.remember_user_path_overrides {
        match saved {
            Some(e) => Some(e.path_overrides),
            None => None,
        }
    } else {
        None
    }
}

fn copy_opt(p: &Option<String>) -> (r: Option<String>)
    ensures
        r == *p,
{
    match p {
        Some(s) => Some(s.clone()),
        None => None,
    }
}

fn copy_layout(l: &LayoutPaths) -> (r: LayoutPaths)
    ensures
        r == *l,
{
    LayoutPaths {
        bios: copy_opt(&l.bios),
        roms: copy_opt(&l.roms),
        saves: copy_opt(&l.saves),
        states: copy_opt(&l.states),
        screenshots: copy_opt(&l.screenshots),
    }
}

/// Resolves a destination from what its device profile expects, what
/// layout detection found on it, and the user's saved overrides, under the
/// user's scan settings: the scan is trusted over the profile only where
/// the settings say so, and saved overrides count only where they are kept.
pub fn resolve_deployment_paths(
    destination_path: &str,
    expected: &LayoutPaths,
    detection: &LayoutDetectionResult,
    saved_override: &Option<UserPathOverrideEntry>,
    settings: &ScanSettings,
) -> (r: ResolvedDeploymentPaths)
    ensures
        resolves_to(
            r,
            destination_path@,
            *expected,
            detected_layout(*detection),
            detection.confidence,
            applied_override(*saved_override, *settings),
            settings.trust_detected_layout_over_expected,
        ),
{
    let detected = match &detection.detected_paths {
        Some(l) => copy_layout(l),
        None => LayoutPaths { bios: None, roms: None, saves: None, states: None, screenshots: None },
    };
    let user = if settings.remember_user_path_overrides {
        match saved_override {
            Some(e) => Some(copy_layout(&e.path_overrides)),
            None => None,
        }
    } else {
        None
    };
    resolve(
        destination_path,
        expected,
        &detected,
        detection.confidence,
        &user,
        settings.trust_detected_layout_over_expected,
    )
}

/// A present, non-empty user override decides the category, whatever the
/// other sources hold and whether or not the scan is trusted.
pub proof fn user_override_wins(
    r: ResolvedDeploymentPaths,
    root: Seq<char>,
    expected: LayoutPaths,
    detected: LayoutPaths,
    scan: Confidence,
    user: Option<LayoutPaths>,
    trust_detected: bool,
    c: PathCategory,
)
    requires
        resolves_to(r, root, expected, detected, scan, user, trust_detected),
        supplied(override_entry(user, c)),
    ensures
        final_of(r, c) == override_entry(user, c)->0,
        source_of(r, c) == PathResolutionSource::User,
{
    assert(resolution_view(detail_of(r, c)) == expected_category(
        root,
        expected,
        detected,
        user,
        trust_detected,
        c,
    ));
}

/// Two resolutions of the same inputs are identical in every path, tag,
/// reason and aggregate.
pub proof fn resolution_is_deterministic(
    r1: ResolvedDeploymentPaths,
    r2: ResolvedDeploymentPaths,
    root: Seq<char>,
    expected: LayoutPaths,
    detected: LayoutPaths,
    scan: Confidence,
    user: Option<LayoutPaths>,
    trust_detected: bool,
)
    requires
        resolves_to(r1, root, expected, detected, scan, user, trust_detected),
        resolves_to(r2, root, expected, detected, scan, user, trust_detected),
    ensures
        resolved_view(r1) == resolved_view(r2),
{
    assert forall|c: PathCategory|
        resolution_view(#[trigger] detail_of(r1, c)) == resolution_view(detail_of(r2, c))
            && final_of(r1, c) == final_of(r2, c) by {
        assert(resolution_view(detail_of(r1, c)) == expected_category(
            root,
            expected,
            detected,
            user,
            trust_detected,
            c,
        ));
        assert(resolution_view(detail_of(r2, c)) == expected_category(
            root,
            expected,
            detected,
            user,
            trust_detected,
            c,
        ));
    }
    assert forall|c: PathCategory| #[trigger] final_of(r1, c) == final_of(r2, c) by {
        assert(final_of(r1, c) == detail_of(r1, c).final_path@);
    }
    assert(resolved_view(r1).0 =~= resolved_view(r2).0);
    assert(resolved_view(r1).1 =~= resolved_view(r2).1);
}

} // verus!
