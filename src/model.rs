//! Records exchanged between the frontend, the catalog collaborators and the
//! deployment engine.

use vstd::prelude::*;

verus! {

/// Declares serde_json::Value, the opaque structured payload (scraper
/// output, emulator settings) that game and settings records carry through
/// unchanged. Nothing is assumed of it: its contents are never read here.
#[verifier::external_type_specification]
#[verifier::external_body]
pub struct ExJsonValue(serde_json::Value);

// Errors

/// Standard error type returned by all commands.
#[derive(Clone, Debug)]
pub enum CommandError {
    NotFound { resource: String, id: String },
    InvalidInput { field: String, message: String },
    IoError { path: String, message: String },
    DatabaseError { message: String },
    DeviceNotConnected { device_id: String },
    DeploymentFailed { reason: String },
    Cancelled,
}

pub type CommandResult<T> = Result<T, CommandError>;

// Events

pub const EVENT_SCAN_PROGRESS: &'static str = "scan_progress";
pub const EVENT_SCAN_COMPLETE: &'static str = "scan_complete";
pub const EVENT_DEPLOYMENT_PROGRESS: &'static str = "deployment_progress";
pub const EVENT_DEPLOYMENT_COMPLETE: &'static str = "deployment_complete";
pub const EVENT_DEVICE_CONNECTED: &'static str = "device_connected";
pub const EVENT_DEVICE_DISCONNECTED: &'static str = "device_disconnected";

/// Progress event payload for scans (library scan, BIOS scan, destination scan).
#[derive(Clone, Debug)]
pub struct ScanProgress {
    pub scan_id: String,
    pub current: u64,
    pub total: u64,
    pub current_file: String,
    pub message: Option<String>,
}

/// Completion event payload for scans.
#[derive(Clone, Debug)]
pub struct ScanComplete {
    pub scan_id: String,
    pub kind: ScanKind,
    pub success: bool,
    pub errors: Vec<String>,
}

#[derive(Clone, Debug)]
pub enum ScanKind {
    Library,
    Bios,
    Destination,
}

/// Progress event payload for deployments.
#[derive(Clone, Debug)]
pub struct DeploymentProgress {
    pub handle_id: String,
    pub current: u64,
    pub total: u64,
    pub current_file: String,
    pub bytes_transferred: u64,
    pub speed_bps: u64,
    pub message: Option<String>,
}

/// Completion event payload for deployments.
#[derive(Clone, Debug)]
pub struct DeploymentComplete {
    pub handle_id: String,
    pub success: bool,
    pub errors: Vec<String>,
    pub warnings: Vec<String>,
}

/// Device connect/disconnect event payload.
#[derive(Clone, Debug)]
pub struct DeviceEvent {
    pub device: DetectedDevice,
}

// Core Types

// Library types

#[derive(Clone, Debug)]
pub struct ScannedGame {
    pub filepath: String,
    pub filename: String,
    pub file_size: u64,
    pub platform_id: String,
    pub detected_title: String,
    pub format: String,
    pub md5: Option<String>,
    pub crc32: Option<String>,
    pub sha1: Option<String>,
    pub sha256: Option<String>,
}

#[derive(Clone, Debug)]
pub struct ScanResult {
    pub scan_id: String,
    pub status: ScanStatus,
    pub started_at: String,
    pub finished_at: Option<String>,
    pub scanned_files: u64,
    pub added_games: u64,
    pub updated_games: u64,
    pub errors: Vec<String>,
    pub warnings: Vec<String>,
}

#[derive(Clone, Debug)]
pub enum ScanStatus {
    Started,
    Running,
    Completed,
    Cancelled,
    Failed,
}

#[derive(Clone, Debug)]
pub struct GameFilter {
    pub platform_ids: Option<Vec<String>>,
    pub collection_id: Option<i64>,
    pub search_query: Option<String>,
    pub has_metadata: Option<bool>,
    pub is_hack: Option<bool>,
}

#[derive(Clone, Debug)]
pub struct Pagination {
    pub page: u32,
    pub page_size: u32,
    pub sort_by: String,
    pub sort_order: SortOrder,
}

#[derive(Clone, Debug)]
pub enum SortOrder {
    Asc,
    Desc,
}

#[derive(Debug)]
pub struct PaginatedGames {
    pub items: Vec<Game>,
    pub page: u32,
    pub page_size: u32,
    pub total_items: u64,
    pub total_pages: u32,
}

#[derive(Debug)]
pub struct Game {
    pub id: i64,
    pub title: String,
    pub platform_id: String,
    pub filepath: String,
    pub filename: String,
    pub file_size: u64,
    pub format: String,
    pub md5: Option<String>,
    pub crc32: Option<String>,
    pub sha1: Option<String>,
    pub sha256: Option<String>,
    pub has_metadata: bool,
    pub is_hack: bool,
    /// Arbitrary metadata (scraper output, tags, etc).
    pub metadata: Option<serde_json::Value>,
    pub created_at: String,
    pub updated_at: String,
}

#[derive(Debug)]
pub struct GameUpdate {
    pub title: Option<String>,
    pub platform_id: Option<String>,
    pub has_metadata: Option<bool>,
    pub is_hack: Option<bool>,
    pub metadata: Option<serde_json::Value>,
}

#[derive(Clone, Debug)]
pub struct DeleteResult {
    pub deleted_count: u64,
    pub failed_ids: Vec<i64>,
}

// Collections

#[derive(Clone, Debug)]
pub struct Collection {
    pub id: i64,
    pub name: String,
    pub game_ids: Vec<i64>,
    pub created_at: String,
    pub updated_at: String,
}

#[derive(Clone, Debug)]
pub struct CollectionUpdate {
    pub name: Option<String>,
}

// Device / Destination types

#[derive(Clone, Debug)]
pub struct DetectedDevice {
    /// Stable-ish identifier (platform-specific), e.g. volume UUID or device path hash.
    pub id: String,
    pub label: Option<String>,
    pub mount_points: Vec<String>,
    pub filesystem: Option<String>,
    pub total_bytes: Option<u64>,
    pub free_bytes: Option<u64>,
    pub is_removable: Option<bool>,
}

#[derive(Clone, Debug)]
pub struct DestinationScanResult {
    pub destination_path: String,
    pub destination_id: Option<String>,
    pub found_markers: Vec<String>,
    pub detected_os_ids: Vec<String>,
    pub confidence: Confidence,
    pub detected_paths: Option<LayoutPaths>,
    pub notes: Vec<String>,
}

#[derive(Clone, Debug)]
pub struct LayoutDetectionResult {
    pub destination_path: String,
    pub detected_os_id: Option<String>,
    pub confidence: Confidence,
    pub evidence: Vec<String>,
    pub detected_paths: Option<LayoutPaths>,
}

#[derive(Clone, Copy, Debug, PartialEq, Eq, Structural)]
pub enum Confidence {
    High,
    Medium,
    Low,
    Unknown,
}

#[derive(Clone, Debug)]
pub struct LayoutPaths {
    pub bios: Option<String>,
    pub roms: Option<String>,
    pub saves: Option<String>,
    pub states: Option<String>,
    pub screenshots: Option<String>,
}

#[derive(Clone, Debug)]
pub struct ResolvedDeploymentPaths {
    pub bios: String,
    pub roms: String,
    pub saves: String,
    pub states: String,
    pub screenshots: String,
    pub source: ResolvedPathSource,
    pub confidence: Confidence,
    pub resolution: ResolvedPathDetails,
}

#[derive(Clone, Copy, Debug, PartialEq, Eq, Structural)]
pub enum ResolvedPathSource {
    Expected,
    Detected,
    UserOverride,
    Merged,
}

#[derive(Clone, Debug)]
pub struct ResolvedPathDetails {
    pub bios: PathResolution,
    pub roms: PathResolution,
    pub saves: PathResolution,
    pub states: PathResolution,
    pub screenshots: PathResolution,
}

#[derive(Clone, Debug)]
pub struct PathResolution {
    pub final_path: String,
    pub source: PathResolutionSource,
    pub reason: String,
}

#[derive(Clone, Copy, Debug, PartialEq, Eq, Structural)]
pub enum PathResolutionSource {
    Profile,
    Detected,
    User,
    Fallback,
}

// User-managed devices/profiles

#[derive(Clone, Debug)]
pub struct UserDevice {
    pub id: i64,
    pub name: String,
    pub catalog_device_id: Option<String>,
    pub chipset_id: Option<String>,
    pub notes: Option<String>,
    pub created_at: String,
    pub updated_at: String,
}

#[derive(Clone, Debug)]
pub struct NewDevice {
    pub name: String,
    pub catalog_device_id: Option<String>,
    pub chipset_id: Option<String>,
    pub notes: Option<String>,
}

#[derive(Clone, Debug)]
pub struct DeviceUpdate {
    pub name: Option<String>,
    pub catalog_device_id: Option<String>,
    pub chipset_id: Option<String>,
    pub notes: Option<String>,
}

#[derive(Clone, Debug)]
pub struct DeviceProfile {
    pub id: i64,
    pub device_id: i64,
    pub name: String,
    pub os_id: String,
    pub frontend_id: Option<String>,
    pub destination_id: Option<String>,
    pub destination_root_hint: Option<String>,
    pub created_at: String,
    pub updated_at: String,
}

#[derive(Clone, Debug)]
pub struct NewProfile {
    pub name: String,
    pub os_id: String,
    pub frontend_id: Option<String>,
    pub destination_id: Option<String>,
    pub destination_root_hint: Option<String>,
}

#[derive(Clone, Debug)]
pub struct ProfileUpdate {
    pub name: Option<String>,
    pub os_id: Option<String>,
    pub frontend_id: Option<String>,
    pub destination_id: Option<String>,
    pub destination_root_hint: Option<String>,
}

// Deployment types

#[derive(Clone, Debug)]
pub struct DeploymentConfig {
    pub device_profile_id: i64,
    pub destination_path: String,
    pub game_ids: Vec<i64>,
    pub include_bios: bool,
    pub include_saves: bool,
    pub include_states: bool,
    pub overwrite_existing: bool,
}

#[derive(Clone, Debug)]
pub struct DeploymentPlan {
    pub plan_id: String,
    pub device_profile_id: i64,
    pub destination_path: String,
    pub resolved_paths: Option<ResolvedDeploymentPaths>,
    pub items: Vec<DeploymentItem>,
    pub total_files: u64,
    pub total_bytes: u64,
    pub warnings: Vec<String>,
}

#[derive(Clone, Debug)]
pub struct DeploymentItem {
    pub kind: DeploymentItemKind,
    pub source_path: String,
    pub dest_path: String,
    pub bytes: u64,
    pub platform_id: Option<String>,
    pub game_id: Option<i64>,
}

#[derive(Clone, Copy, Debug, PartialEq, Eq, Structural)]
pub enum DeploymentItemKind {
    Rom,
    Bios,
    Save,
    State,
    Media,
    Metadata,
    Other,
}

#[derive(Clone, Debug)]
pub struct ValidationResult {
    pub valid: bool,
    pub errors: Vec<String>,
    pub warnings: Vec<String>,
}

#[derive(Clone, Debug)]
pub struct DeploymentHandle {
    pub handle_id: String,
}

#[derive(Clone, Copy, Debug, PartialEq, Eq, Structural)]
pub enum DeploymentStatus {
    Running,
    Paused,
    Cancelled,
    Completed,
    Failed,
}

#[derive(Clone, Debug)]
pub struct DeploymentRecord {
    pub id: String,
    pub device_id: i64,
    pub device_profile_id: i64,
    pub started_at: String,
    pub finished_at: Option<String>,
    pub status: DeploymentStatus,
    pub total_files: u64,
    pub total_bytes: u64,
    pub errors: Vec<String>,
    pub warnings: Vec<String>,
}

// BIOS types

#[derive(Clone, Debug)]
pub struct BiosHash {
    pub md5: Option<String>,
    pub sha1: Option<String>,
    pub crc32: Option<String>,
    pub sha256: Option<String>,
    pub source: Option<String>,
    pub source_url: Option<String>,
    pub is_preferred: Option<bool>,
}

#[derive(Clone, Debug)]
pub enum Region {
    USA,
    EUR,
    JPN,
    World,
    FRA,
    GER,
    SPA,
    ITA,
    NLD,
    KOR,
    CHN,
    TWN,
    HKG,
    BRA,
    AUS,
    Unknown,
    Universal,
}

#[derive(Clone, Debug)]
pub struct BiosFile {
    pub id: String,
    pub name: String,
    pub filename: String,
    pub platform_id: String,
    pub description: Option<String>,
    pub required: Option<bool>,
    pub region: Option<Region>,
    pub known_hashes: Option<Vec<BiosHash>>,
    pub alternate_filenames: Option<Vec<String>>,
    pub required_for_emulators: Option<Vec<String>>,
    pub optional_for_emulators: Option<Vec<String>>,
    pub file_size: Option<u64>,
    pub hle_fallback: Option<bool>,
    pub version: Option<String>,
    pub release_date: Option<String>,
    pub bios_subdirectory: Option<String>,
    pub alternate_subdirectories: Option<Vec<String>>,
    pub notes: Option<String>,
}

#[derive(Clone, Debug)]
pub enum BiosVerificationStatus {
    Present,
    Missing,
    Mismatch,
    Unknown,
}

#[derive(Clone, Debug)]
pub struct BiosVerificationResult {
    pub path: String,
    pub status: BiosVerificationStatus,
    pub file_md5: Option<String>,
    pub file_sha1: Option<String>,
    pub file_crc32: Option<String>,
    pub file_sha256: Option<String>,
    pub file_size: Option<u64>,
    pub matched_bios_id: Option<String>,
    pub matched_bios_name: Option<String>,
    pub matched_platform: Option<String>,
    pub notes: String,
}

#[derive(Clone, Debug)]
pub struct BiosVerificationReport {
    pub scan_date: String,
    pub bios_directory: String,
    pub database_version: Option<String>,
    pub summary: BiosVerificationSummary,
    pub results: Vec<BiosVerificationResult>,
}

#[derive(Clone, Debug)]
pub struct BiosVerificationSummary {
    pub present: u64,
    pub missing: u64,
    pub mismatch: u64,
    pub unknown: u64,
    pub total: u64,
}

#[derive(Clone, Debug)]
pub struct BiosRequirement {
    pub platform_id: String,
    pub required: Vec<BiosFileRef>,
    pub optional: Vec<BiosFileRef>,
}

#[derive(Clone, Debug)]
pub struct BiosFileRef {
    pub bios_id: String,
    pub name: String,
    pub filename: String,
    pub region: Option<Region>,
    pub notes: Option<String>,
}

/// Report describing BIOS completeness for a set of platforms.
#[derive(Clone, Debug)]
pub struct BiosCompletenessReport {
    pub directory: String,
    pub platform_ids: Vec<String>,
    pub missing_required: Vec<BiosFileRef>,
    pub missing_optional: Vec<BiosFileRef>,
    pub present: Vec<BiosFileRef>,
    pub notes: Vec<String>,
}

/// Alternate name of `BiosCompletenessReport`, kept for callers that use it.
pub type BiasCompletenessReport = BiosCompletenessReport;

// Compatibility types

#[derive(Clone, Debug)]
pub enum PerformanceTier {
    Unplayable,
    Poor,
    Playable,
    Good,
    Excellent,
}

#[derive(Clone, Debug)]
pub struct GamePerformance {
    pub game_id: String,
    pub platform_id: String,
    pub chipset_id: String,
    pub emulator_id: Option<String>,
    pub performance_tier: PerformanceTier,
    pub requires_settings: Option<bool>,
    pub notes: Option<String>,
    pub exclude_from_auto_lists: Option<bool>,
    pub source: Option<String>,
}

#[derive(Clone, Debug)]
pub enum CompatStatus {
    Perfect,
    Playable,
    Ingame,
    MenuIntro,
    BootsOnly,
    Broken,
    Unknown,
}

#[derive(Clone, Debug)]
pub struct EmulatorCompat {
    pub game_id: String,
    pub platform_id: String,
    pub emulator_id: String,
    pub status: CompatStatus,
    pub notes: Option<String>,
    pub source: Option<String>,
    pub source_url: Option<String>,
    pub last_updated: Option<String>,
}

#[derive(Debug)]
pub struct GameSettings {
    pub game_id: String,
    pub platform_id: String,
    pub emulator_id: String,
    /// Emulator-specific settings payload. This is intentionally flexible.
    pub settings: serde_json::Value,
    pub explanation: Option<String>,
    pub source: Option<String>,
}

#[derive(Clone, Debug)]
pub struct RefreshResult {
    pub refreshed_at: String,
    pub performance_rows: u64,
    pub compat_rows: u64,
    pub settings_rows: u64,
}

// Settings types

#[derive(Clone, Debug)]
pub struct ScanSettings {
    pub scan_destination_before_deployment: bool,
    pub trust_detected_layout_over_expected: bool,
    pub remember_scanned_layouts: bool,
    pub remember_user_path_overrides: bool,
}

#[derive(Clone, Debug)]
pub struct AppSettings {
    pub library_roots: Vec<String>,
    pub default_bios_dir: Option<String>,
    pub definition_pack_path: Option<String>,
    pub scan_settings: ScanSettings,
}

#[derive(Clone, Debug)]
pub struct SettingsUpdate {
    pub library_roots: Option<Vec<String>>,
    pub default_bios_dir: Option<String>,
    pub definition_pack_path: Option<String>,
    pub scan_settings: Option<ScanSettings>,
}

#[derive(Clone, Debug)]
pub struct PlatformOverride {
    pub platform_id: String,
    pub emulator_id: String,
    pub updated_at: String,
}

#[derive(Clone, Debug)]
pub enum OverrideAction {
    Include,
    Exclude,
}

#[derive(Clone, Debug)]
pub struct GameOverride {
    pub game_id: i64,
    pub action: OverrideAction,
    pub force_emulator_id: Option<String>,
    pub notes: Option<String>,
    pub updated_at: String,
}

#[derive(Clone, Debug)]
pub struct UserPathOverrideEntry {
    pub destination_id: String,
    pub os_id: String,
    pub last_scanned: String,
    pub path_overrides: LayoutPaths,
    pub notes: Option<String>,
}

// Definition pack types

#[derive(Clone, Debug)]
pub struct DefinitionPackMeta {
    pub version: String,
    pub schema_version: String,
    pub release_date: String,
    pub min_app_version: String,
    pub loaded_from: Option<String>,
}

// Catalog shapes exchanged with the frontend.
// Fields are intentionally optional to allow forward-compatible packs.

#[derive(Clone, Debug)]
pub struct Platform {
    pub id: String,
    pub name: String,
    pub aliases: Option<Vec<String>>,
    pub manufacturer: Option<String>,
    pub category: Option<String>,
}

#[derive(Clone, Debug)]
pub struct Emulator {
    pub id: String,
    pub name: String,
    pub kind: Option<String>,
    pub platforms: Option<Vec<String>>,
    pub website: Option<String>,
    pub repository: Option<String>,
    pub status: Option<String>,
}

#[derive(Clone, Debug)]
pub struct Chipset {
    pub id: String,
    pub name: String,
    pub manufacturer: Option<String>,
    pub cpu_cores: Option<u32>,
    pub cpu_arch: Option<String>,
    pub gpu: Option<String>,
    pub performance_tier: Option<String>,
    pub max_platform_tier: Option<String>,
}

#[derive(Clone, Debug)]
pub struct DeviceCatalog {
    pub id: String,
    pub name: String,
    pub manufacturer: Option<String>,
    pub device_type: String,
    pub release_year: Option<u32>,
    pub chipset_id: String,
    pub ram_mb: Option<u32>,
    pub supported_os: Option<Vec<String>>,
    pub default_os: Option<String>,
    pub links: Option<Vec<String>>,
}

#[derive(Clone, Debug)]
pub struct OperatingSystem {
    pub id: String,
    pub name: String,
    pub family: Option<String>,
    pub category: Option<String>,
    pub supported_devices: Option<Vec<String>>,
    pub notes: Option<String>,
}

#[derive(Clone, Debug)]
pub struct Frontend {
    pub id: String,
    pub name: String,
    pub kind: Option<String>,
    pub metadata_format: Option<String>,
}

// File System types

#[derive(Clone, Debug)]
pub struct FileFilter {
    pub name: String,
    pub extensions: Vec<String>,
}

#[derive(Clone, Debug)]
pub enum HashAlgorithm {
    Md5,
    Sha1,
    Sha256,
    Crc32,
}

#[derive(Clone, Debug)]
pub struct DirectoryInfo {
    pub path: String,
    pub exists: bool,
    pub is_dir: bool,
    pub file_count: u64,
    pub total_bytes: u64,
}

#[derive(Clone, Debug)]
pub struct CopyResult {
    pub source: String,
    pub dest: String,
    pub bytes: u64,
    pub overwritten: bool,
}

#[derive(Clone, Debug)]
pub struct MoveResult {
    pub source: String,
    pub dest: String,
    pub bytes: u64,
    pub overwritten: bool,
}

#[derive(Clone, Debug)]
pub struct ArchiveEntry {
    pub path: String,
    pub is_dir: bool,
    pub size: Option<u64>,
}

#[derive(Clone, Debug)]
pub struct ExtractResult {
    pub source_archive: String,
    pub dest_dir: String,
    pub extracted_files: u64,
    pub errors: Vec<String>,
}

} // verus!
