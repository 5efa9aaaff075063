//! Plain data types of analysis requests, preferences, configuration and
//! job tracking.
use vstd::prelude::*;
use crate::text::opt_view;

verus! {

/// A request to analyze a resume against a job description.
#[derive(Debug, Clone)]
pub struct AnalysisRequest {
    pub resume_content: String,
    pub job_description: String,
    pub model_name: String,
}

/// How aggressively a resume is rewritten.
#[derive(Debug, Clone, Copy, PartialEq, Eq, Structural)]
pub enum OptimizationLevel {
    Conservative,
    Balanced,
    Aggressive,
}

/// A request to optimize a resume.
#[derive(Debug, Clone)]
pub struct OptimizationRequest {
    pub resume_content: String,
    pub job_description: String,
    pub model_name: String,
    pub optimization_level: OptimizationLevel,
}

/// Colour theme of the interface.
#[derive(Debug, Clone, Copy, PartialEq, Eq, Structural)]
pub enum ThemePreference {
    Light,
    Dark,
    System,
    HighContrast,
}

/// Speed of interface animations.
#[derive(Debug, Clone, Copy, PartialEq, Eq, Structural)]
pub enum AnimationSpeed {
    /// No animation (named `None` in serialized preferences).
    Disabled,
    Reduced,
    Normal,
    Fast,
}

/// Format of exported analyses.
#[derive(Debug, Clone, Copy, PartialEq, Eq, Structural)]
pub enum ExportFormat {
    Json,
    Csv,
    Pdf,
    Html,
}

/// A partial update of the user preferences: each present field replaces
/// the stored one.
#[derive(Debug, Clone)]
pub struct UserPreferencesUpdate {
    pub ollama_host: Option<String>,
    pub ollama_port: Option<i32>,
    pub default_model: Option<String>,
    pub connection_timeout_seconds: Option<i32>,
    pub auto_connect_on_startup: Option<bool>,
    pub default_optimization_level: Option<OptimizationLevel>,
    pub auto_save_analyses: Option<bool>,
    pub analysis_history_retention_days: Option<i32>,
    pub theme: Option<ThemePreference>,
    pub language: Option<String>,
    pub sidebar_collapsed: Option<bool>,
    pub show_advanced_features: Option<bool>,
    pub animation_speed: Option<AnimationSpeed>,
    pub data_storage_location: Option<String>,
    pub auto_backup_enabled: Option<bool>,
    pub backup_frequency_hours: Option<i32>,
    pub telemetry_enabled: Option<bool>,
    pub desktop_notifications: Option<bool>,
    pub sound_notifications: Option<bool>,
    pub email_notifications: Option<bool>,
    pub notification_email: Option<String>,
    pub max_concurrent_analyses: Option<i32>,
    pub cache_size_mb: Option<i32>,
    pub enable_gpu_acceleration: Option<bool>,
    pub default_export_format: Option<ExportFormat>,
    pub include_metadata_in_exports: Option<bool>,
    pub compress_exports: Option<bool>,
}

/// Connection settings of the local model server.
#[derive(Debug, Clone)]
pub struct OllamaConfig {
    pub host: String,
    pub port: u16,
    pub timeout_seconds: u64,
    pub max_retries: u32,
    pub default_model: String,
    pub models: Vec<String>,
}

/// Performance limits.
#[derive(Debug, Clone)]
pub struct PerformanceConfig {
    pub max_concurrent_analyses: usize,
    pub cache_size_mb: usize,
    pub enable_gpu_acceleration: bool,
    pub memory_limit_mb: usize,
    pub timeout_seconds: u64,
}

/// Logging settings.
#[derive(Debug, Clone)]
pub struct LoggingConfig {
    pub level: String,
    pub file_path: Option<String>,
    pub enable_telemetry: bool,
    pub enable_performance_metrics: bool,
}

/// Where a job is done.
#[derive(Debug, Clone, Copy, PartialEq, Eq, Structural)]
pub enum RemoteWorkType {
    OnSite,
    Remote,
    Hybrid,
    Flexible,
}

/// Kind of employment.
#[derive(Debug, Clone, Copy, PartialEq, Eq, Structural)]
pub enum EmploymentType {
    FullTime,
    PartTime,
    Contract,
    Temporary,
    Internship,
    Freelance,
}

/// Seniority asked for by a job.
#[derive(Debug, Clone, Copy, PartialEq, Eq, Structural)]
pub enum ExperienceLevel {
    EntryLevel,
    Junior,
    MidLevel,
    Senior,
    Lead,
    Principal,
    Executive,
}

/// Stage of a tracked job.
#[derive(Debug, Clone, Copy, PartialEq, Eq, Structural)]
pub enum JobStatus {
    Draft,
    Active,
    Applied,
    Interviewing,
    Offered,
    Rejected,
    Withdrawn,
    Closed,
}

/// Priority of a tracked job.
#[derive(Debug, Clone, Copy, PartialEq, Eq, Structural)]
pub enum JobPriority {
    Low,
    Medium,
    High,
    Critical,
}

/// Stage of an application.
#[derive(Debug, Clone, Copy, PartialEq, Eq, Structural)]
pub enum ApplicationStatus {
    NotApplied,
    Applied,
    ApplicationReviewed,
    PhoneScreen,
    TechnicalInterview,
    OnSiteInterview,
    FinalRound,
    OfferReceived,
    OfferAccepted,
    OfferDeclined,
    Rejected,
    Withdrawn,
}

/// Where a job was found.
#[derive(Debug, Clone, Copy, PartialEq, Eq, Structural)]
pub enum JobSource {
    Manual,
    LinkedIn,
    Indeed,
    CompanyWebsite,
    Referral,
    Recruiter,
    JobBoard,
    URL,
}

/// Column by which job searches are sorted.
#[derive(Debug, Clone, Copy, PartialEq, Eq, Structural)]
pub enum JobSortOption {
    CreatedAt,
    UpdatedAt,
    PostedDate,
    ApplicationDeadline,
    Priority,
    Title,
    Company,
    SalaryMin,
    SalaryMax,
}

/// Direction of sorting.
#[derive(Debug, Clone, Copy, PartialEq, Eq, Structural)]
pub enum SortOrder {
    Asc,
    Desc,
}

/// A request to extract a job description from a web page.
#[derive(Debug, Clone)]
pub struct JobUrlExtractionRequest {
    pub url: String,
}

/// What was extracted from a job page.
#[derive(Debug, Clone)]
pub struct JobUrlExtractionResult {
    pub title: Option<String>,
    pub company: Option<String>,
    pub content: String,
    pub location: Option<String>,
    pub salary_range: Option<String>,
    pub employment_type: Option<String>,
    pub remote_options: Option<String>,
    pub requirements: Vec<String>,
    pub posted_date: Option<String>,
    pub application_deadline: Option<String>,
    pub success: bool,
    pub error: Option<String>,
}

/// Number of jobs in a status.
#[derive(Debug, Clone)]
pub struct JobStatusCount {
    pub status: JobStatus,
    pub count: i64,
}

/// Number of jobs of a priority.
#[derive(Debug, Clone)]
pub struct JobPriorityCount {
    pub priority: JobPriority,
    pub count: i64,
}

/// Number of applications in a status.
#[derive(Debug, Clone)]
pub struct ApplicationStatusCount {
    pub status: ApplicationStatus,
    pub count: i64,
}

/// Number of jobs at a company.
#[derive(Debug, Clone)]
pub struct CompanyCount {
    pub company: String,
    pub count: i64,
}

/// Number of jobs at a location.
#[derive(Debug, Clone)]
pub struct LocationCount {
    pub location: String,
    pub count: i64,
}

/// A request to compare jobs.
#[derive(Debug, Clone)]
pub struct JobComparisonRequest {
    pub job_ids: Vec<String>,
}

/// Requirements shared by the compared jobs and those of each alone.
#[derive(Debug, Clone)]
pub struct RequirementsComparison {
    pub common_requirements: Vec<String>,
    pub unique_requirements: Vec<JobUniqueRequirements>,
}

/// Requirements of one job that the others lack.
#[derive(Debug, Clone)]
pub struct JobUniqueRequirements {
    pub job_id: String,
    pub requirements: Vec<String>,
}

/// Benefits of a job.
#[derive(Debug, Clone)]
pub struct BenefitsComparison {
    pub job_id: String,
    pub benefits: Vec<String>,
}


/// The stored preferences of a user.
#[derive(Debug, Clone)]
pub struct UserPreferences {
    pub id: String,
    pub user_id: String,
    pub ollama_host: String,
    pub ollama_port: i32,
    pub default_model: Option<String>,
    pub connection_timeout_seconds: i32,
    pub auto_connect_on_startup: bool,
    pub default_optimization_level: OptimizationLevel,
    pub auto_save_analyses: bool,
    pub analysis_history_retention_days: i32,
    pub theme: ThemePreference,
    pub language: String,
    pub sidebar_collapsed: bool,
    pub show_advanced_features: bool,
    pub animation_speed: AnimationSpeed,
    pub data_storage_location: Option<String>,
    pub auto_backup_enabled: bool,
    pub backup_frequency_hours: i32,
    pub telemetry_enabled: bool,
    pub desktop_notifications: bool,
    pub sound_notifications: bool,
    pub email_notifications: bool,
    pub notification_email: Option<String>,
    pub max_concurrent_analyses: i32,
    pub cache_size_mb: i32,
    pub enable_gpu_acceleration: bool,
    pub default_export_format: ExportFormat,
    pub include_metadata_in_exports: bool,
    pub compress_exports: bool,
    /// Creation time, in RFC 3339 form.
    pub created_at: String,
    /// Time of the last change, in RFC 3339 form.
    pub updated_at: String,
}

/// The replacement of a field by a present update value.
pub open spec fn updated<T>(update: Option<T>, old: T) -> T {
    match update {
        Some(v) => v,
        None => old,
    }
}

/// The replacement of a text field by a present update value.
pub open spec fn updated_text(update: Option<String>, old: String) -> Seq<char> {
    match update {
        Some(v) => v@,
        None => old@,
    }
}

/// The replacement of an optional text field: a present update value sets it.
pub open spec fn updated_opt_text(update: Option<String>, old: Option<String>) -> Option<Seq<char>> {
    match update {
        Some(v) => Some(v@),
        None => opt_view(old),
    }
}

/// Whether `new` is `old` with every present field of `u` applied, and
/// nothing else changed but the time of the change.
pub open spec fn is_update_of(new: UserPreferences, old: UserPreferences, u: UserPreferencesUpdate) -> bool {
    &&& new.id@ == old.id@
    &&& new.user_id@ == old.user_id@
    &&& new.ollama_host@ == updated_text(u.ollama_host, old.ollama_host)
    &&& new.ollama_port == updated(u.ollama_port, old.ollama_port)
    &&& opt_view(new.default_model) == updated_opt_text(u.default_model, old.default_model)
    &&& new.connection_timeout_seconds == updated(u.connection_timeout_seconds, old.connection_timeout_seconds)
    &&& new.auto_connect_on_startup == updated(u.auto_connect_on_startup, old.auto_connect_on_startup)
    &&& new.default_optimization_level == updated(u.default_optimization_level, old.default_optimization_level)
    &&& new.auto_save_analyses == updated(u.auto_save_analyses, old.auto_save_analyses)
    &&& new.analysis_history_retention_days == updated(u.analysis_history_retention_days, old.analysis_history_retention_days)
    &&& new.theme == updated(u.theme, old.theme)
    &&& new.language@ == updated_text(u.language, old.language)
    &&& new.sidebar_collapsed == updated(u.sidebar_collapsed, old.sidebar_collapsed)
    &&& new.show_advanced_features == updated(u.show_advanced_features, old.show_advanced_features)
    &&& new.animation_speed == updated(u.animation_speed, old.animation_speed)
    &&& opt_view(new.data_storage_location) == updated_opt_text(u.data_storage_location, old.data_storage_location)
    &&& new.auto_backup_enabled == updated(u.auto_backup_enabled, old.auto_backup_enabled)
    &&& new.backup_frequency_hours == updated(u.backup_frequency_hours, old.backup_frequency_hours)
    &&& new.telemetry_enabled == updated(u.telemetry_enabled, old.telemetry_enabled)
    &&& new.desktop_notifications == updated(u.desktop_notifications, old.desktop_notifications)
    &&& new.sound_notifications == updated(u.sound_notifications, old.sound_notifications)
    &&& new.email_notifications == updated(u.email_notifications, old.email_notifications)
    &&& opt_view(new.notification_email) == updated_opt_text(u.notification_email, old.notification_email)
    &&& new.max_concurrent_analyses == updated(u.max_concurrent_analyses, old.max_concurrent_analyses)
    &&& new.cache_size_mb == updated(u.cache_size_mb, old.cache_size_mb)
    &&& new.enable_gpu_acceleration == updated(u.enable_gpu_acceleration, old.enable_gpu_acceleration)
    &&& new.default_export_format == updated(u.default_export_format, old.default_export_format)
    &&& new.include_metadata_in_exports == updated(u.include_metadata_in_exports, old.include_metadata_in_exports)
    &&& new.compress_exports == updated(u.compress_exports, old.compress_exports)
    &&& new.created_at@ == old.created_at@
}

/// The update value if present, else the old value.
fn pick<T: Copy>(update: Option<T>, old: T) -> (res: T)
    ensures
        res == updated(update, old),
{
    match update {
        Some(v) => v,
        None => old,
    }
}

/// The update text if present, else the old text.
fn pick_text(update: &Option<String>, old: &String) -> (res: String)
    ensures
        res@ == updated_text(*update, *old),
{
    match update {
        Some(v) => v.clone(),
        None => old.clone(),
    }
}

/// The update text if present, else the old optional text.
fn pick_opt_text(update: &Option<String>, old: &Option<String>) -> (res: Option<String>)
    ensures
        opt_view(res) == updated_opt_text(*update, *old),
{
    match update {
        Some(v) => Some(v.clone()),
        None => match old {
            Some(o) => Some(o.clone()),
            None => None,
        },
    }
}

impl UserPreferences {
    /// The default preferences of `user_id`, identified by `id` and created
    /// at `now`: local model server on port 11434 with a 30 s timeout,
    /// balanced optimization, analyses kept 90 days, light theme in
    /// English, daily backups off, desktop notifications on, three
    /// concurrent analyses, a 256 MB cache, JSON exports with metadata.
    pub fn with_identity(id: &str, user_id: &str, now: &str) -> (res: Self)
        ensures
            res.id@ == id@,
            res.user_id@ == user_id@,
            res.ollama_host@ == "http://localhost"@,
            res.ollama_port == 11434,
            res.default_model is None,
            res.connection_timeout_seconds == 30,
            res.auto_connect_on_startup,
            res.default_optimization_level == OptimizationLevel::Balanced,
            res.auto_save_analyses,
            res.analysis_history_retention_days == 90,
            res.theme == ThemePreference::Light,
            res.language@ == "en"@,
            !res.sidebar_collapsed,
            !res.show_advanced_features,
            res.animation_speed == AnimationSpeed::Normal,
            res.data_storage_location is None,
            !res.auto_backup_enabled,
            res.backup_frequency_hours == 24,
            !res.telemetry_enabled,
            res.desktop_notifications,
            !res.sound_notifications,
            !res.email_notifications,
            res.notification_email is None,
            res.max_concurrent_analyses == 3,
            res.cache_size_mb == 256,
            !res.enable_gpu_acceleration,
            res.default_export_format == ExportFormat::Json,
            res.include_metadata_in_exports,
            !res.compress_exports,
            res.created_at@ == now@,
            res.updated_at@ == now@,
    {
        UserPreferences {
            id: id.to_owned(),
            user_id: user_id.to_owned(),
            ollama_host: "http://localhost".to_owned(),
            ollama_port: 11434,
            default_model: None,
            connection_timeout_seconds: 30,
            auto_connect_on_startup: true,
            default_optimization_level: OptimizationLevel::Balanced,
            auto_save_analyses: true,
            analysis_history_retention_days: 90,
            theme: ThemePreference::Light,
            language: "en".to_owned(),
            sidebar_collapsed: false,
            show_advanced_features: false,
            animation_speed: AnimationSpeed::Normal,
            data_storage_location: None,
            auto_backup_enabled: false,
            backup_frequency_hours: 24,
            telemetry_enabled: false,
            desktop_notifications: true,
            sound_notifications: false,
            email_notifications: false,
            notification_email: None,
            max_concurrent_analyses: 3,
            cache_size_mb: 256,
            enable_gpu_acceleration: false,
            default_export_format: ExportFormat::Json,
            include_metadata_in_exports: true,
            compress_exports: false,
            created_at: now.to_owned(),
            updated_at: now.to_owned(),
        }
    }

    /// Applies every present field of `updates`, and records `now` as the
    /// time of the change.
    pub fn apply_update(&mut self, updates: &UserPreferencesUpdate, now: &str)
        ensures
            is_update_of(*final(self), *old(self), *updates),
            final(self).updated_at@ == now@,
    {
        let new = UserPreferences {
            id: self.id.clone(),
            user_id: self.user_id.clone(),
            ollama_host: pick_text(&updates.ollama_host, &self.ollama_host),
            ollama_port: pick(updates.ollama_port, self.ollama_port),
            default_model: pick_opt_text(&updates.default_model, &self.default_model),
            connection_timeout_seconds: pick(updates.connection_timeout_seconds, self.connection_timeout_seconds),
            auto_connect_on_startup: pick(updates.auto_connect_on_startup, self.auto_connect_on_startup),
            default_optimization_level: pick(updates.default_optimization_level, self.default_optimization_level),
            auto_save_analyses: pick(updates.auto_save_analyses, self.auto_save_analyses),
            analysis_history_retention_days: pick(updates.analysis_history_retention_days, self.analysis_history_retention_days),
            theme: pick(updates.theme, self.theme),
            language: pick_text(&updates.language, &self.language),
            sidebar_collapsed: pick(updates.sidebar_collapsed, self.sidebar_collapsed),
            show_advanced_features: pick(updates.show_advanced_features, self.show_advanced_features),
            animation_speed: pick(updates.animation_speed, self.animation_speed),
            data_storage_location: pick_opt_text(&updates.data_storage_location, &self.data_storage_location),
            auto_backup_enabled: pick(updates.auto_backup_enabled, self.auto_backup_enabled),
            backup_frequency_hours: pick(updates.backup_frequency_hours, self.backup_frequency_hours),
            telemetry_enabled: pick(updates.telemetry_enabled, self.telemetry_enabled),
            desktop_notifications: pick(updates.desktop_notifications, self.desktop_notifications),
            sound_notifications: pick(updates.sound_notifications, self.sound_notifications),
            email_notifications: pick(updates.email_notifications, self.email_notifications),
            notification_email: pick_opt_text(&updates.notification_email, &self.notification_email),
            max_concurrent_analyses: pick(updates.max_concurrent_analyses, self.max_concurrent_analyses),
            cache_size_mb: pick(updates.cache_size_mb, self.cache_size_mb),
            enable_gpu_acceleration: pick(updates.enable_gpu_acceleration, self.enable_gpu_acceleration),
            default_export_format: pick(updates.default_export_format, self.default_export_format),
            include_metadata_in_exports: pick(updates.include_metadata_in_exports, self.include_metadata_in_exports),
            compress_exports: pick(updates.compress_exports, self.compress_exports),
            created_at: self.created_at.clone(),
            updated_at: now.to_owned(),
        };
        *self = new;
    }
}


/// An update with no field present.
pub open spec fn empty_update(u: UserPreferencesUpdate) -> bool {
    &&& u.ollama_host is None
    &&& u.ollama_port is None
    &&& u.default_model is None
    &&& u.connection_timeout_seconds is None
    &&& u.auto_connect_on_startup is None
    &&& u.default_optimization_level is None
    &&& u.auto_save_analyses is None
    &&& u.analysis_history_retention_days is None
    &&& u.theme is None
    &&& u.language is None
    &&& u.sidebar_collapsed is None
    &&& u.show_advanced_features is None
    &&& u.animation_speed is None
    &&& u.data_storage_location is None
    &&& u.auto_backup_enabled is None
    &&& u.backup_frequency_hours is None
    &&& u.telemetry_enabled is None
    &&& u.desktop_notifications is None
    &&& u.sound_notifications is None
    &&& u.email_notifications is None
    &&& u.notification_email is None
    &&& u.max_concurrent_analyses is None
    &&& u.cache_size_mb is None
    &&& u.enable_gpu_acceleration is None
    &&& u.default_export_format is None
    &&& u.include_metadata_in_exports is None
    &&& u.compress_exports is None
}

/// Applying the same update twice gives what applying it once gives: the
/// second application changes no field.
pub proof fn law_update_idempotent(
    p0: UserPreferences,
    p1: UserPreferences,
    p2: UserPreferences,
    u: UserPreferencesUpdate,
)
    requires
        is_update_of(p1, p0, u),
        is_update_of(p2, p1, u),
    ensures
        is_update_of(p2, p0, u),
{
}

/// Whether two stored preferences agree on every field but the time of
/// the last change.
pub open spec fn same_settings(a: UserPreferences, b: UserPreferences) -> bool {
    &&& a.id@ == b.id@
    &&& a.user_id@ == b.user_id@
    &&& a.ollama_host@ == b.ollama_host@
    &&& a.language@ == b.language@
    &&& a.created_at@ == b.created_at@
    &&& opt_view(a.default_model) == opt_view(b.default_model)
    &&& opt_view(a.data_storage_location) == opt_view(b.data_storage_location)
    &&& opt_view(a.notification_email) == opt_view(b.notification_email)
    &&& a.ollama_port == b.ollama_port
    &&& a.connection_timeout_seconds == b.connection_timeout_seconds
    &&& a.auto_connect_on_startup == b.auto_connect_on_startup
    &&& a.default_optimization_level == b.default_optimization_level
    &&& a.auto_save_analyses == b.auto_save_analyses
    &&& a.analysis_history_retention_days == b.analysis_history_retention_days
    &&& a.theme == b.theme
    &&& a.sidebar_collapsed == b.sidebar_collapsed
    &&& a.show_advanced_features == b.show_advanced_features
    &&& a.animation_speed == b.animation_speed
    &&& a.auto_backup_enabled == b.auto_backup_enabled
    &&& a.backup_frequency_hours == b.backup_frequency_hours
    &&& a.telemetry_enabled == b.telemetry_enabled
    &&& a.desktop_notifications == b.desktop_notifications
    &&& a.sound_notifications == b.sound_notifications
    &&& a.email_notifications == b.email_notifications
    &&& a.max_concurrent_analyses == b.max_concurrent_analyses
    &&& a.cache_size_mb == b.cache_size_mb
    &&& a.enable_gpu_acceleration == b.enable_gpu_acceleration
    &&& a.default_export_format == b.default_export_format
    &&& a.include_metadata_in_exports == b.include_metadata_in_exports
    &&& a.compress_exports == b.compress_exports
}

/// An update without fields keeps every stored preference.
pub proof fn law_empty_update_keeps_preferences(p0: UserPreferences, p1: UserPreferences, u: UserPreferencesUpdate)
    requires
        empty_update(u),
        is_update_of(p1, p0, u),
    ensures
        same_settings(p1, p0),
{
}

} // verus!
