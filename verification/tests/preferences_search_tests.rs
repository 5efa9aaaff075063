use ats_scanner::job_search::{build_search_query, search_has_more, JobSearchRequest};
use ats_scanner::models::{
    AnimationSpeed, ExportFormat, JobSortOption, SortOrder, ThemePreference, UserPreferences,
    UserPreferencesUpdate,
};

fn empty_update() -> UserPreferencesUpdate {
    UserPreferencesUpdate {
        ollama_host: None,
        ollama_port: None,
        default_model: None,
        connection_timeout_seconds: None,
        auto_connect_on_startup: None,
        default_optimization_level: None,
        auto_save_analyses: None,
        analysis_history_retention_days: None,
        theme: None,
        language: None,
        sidebar_collapsed: None,
        show_advanced_features: None,
        animation_speed: None,
        data_storage_location: None,
        auto_backup_enabled: None,
        backup_frequency_hours: None,
        telemetry_enabled: None,
        desktop_notifications: None,
        sound_notifications: None,
        email_notifications: None,
        notification_email: None,
        max_concurrent_analyses: None,
        cache_size_mb: None,
        enable_gpu_acceleration: None,
        default_export_format: None,
        include_metadata_in_exports: None,
        compress_exports: None,
    }
}

#[test]
fn default_preferences() {
    let p = UserPreferences::with_identity("id-1", "default", "2024-01-01T00:00:00Z");
    assert_eq!(p.ollama_host, "http://localhost");
    assert_eq!(p.ollama_port, 11434);
    assert_eq!(p.theme, ThemePreference::Light);
    assert_eq!(p.cache_size_mb, 256);
    assert_eq!(p.default_export_format, ExportFormat::Json);
    assert_eq!(p.updated_at, "2024-01-01T00:00:00Z");
}

#[test]
fn update_changes_present_fields_only() {
    let mut p = UserPreferences::with_identity("id-1", "default", "t0");
    let mut u = empty_update();
    u.ollama_port = Some(9000);
    u.theme = Some(ThemePreference::Dark);
    u.notification_email = Some("a@b.c".to_string());
    u.animation_speed = Some(AnimationSpeed::Disabled);
    p.apply_update(&u, "t1");
    assert_eq!(p.ollama_port, 9000);
    assert_eq!(p.theme, ThemePreference::Dark);
    assert_eq!(p.notification_email.as_deref(), Some("a@b.c"));
    assert_eq!(p.animation_speed, AnimationSpeed::Disabled);
    assert_eq!(p.ollama_host, "http://localhost");
    assert_eq!(p.created_at, "t0");
    assert_eq!(p.updated_at, "t1");
    let before = p.clone();
    p.apply_update(&u, "t2");
    assert_eq!(p.ollama_port, before.ollama_port);
    p.apply_update(&empty_update(), "t3");
    assert_eq!(p.language, "en");
    assert_eq!(p.ollama_port, 9000);
}

fn request() -> JobSearchRequest {
    JobSearchRequest {
        query: None,
        company: None,
        location: None,
        remote_options: None,
        employment_type: None,
        experience_level: None,
        salary_min: None,
        salary_max: None,
        status: None,
        priority: None,
        application_status: None,
        industry: None,
        tags: None,
        posted_after: None,
        posted_before: None,
        include_archived: None,
        limit: None,
        offset: None,
        sort_by: None,
        sort_order: None,
    }
}

#[test]
fn search_query_with_every_filter() {
    let mut r = request();
    r.query = Some("rust".to_string());
    r.company = Some("Acme".to_string());
    r.salary_min = Some(-5);
    r.industry = Some("tech".to_string());
    r.limit = Some(10);
    r.offset = Some(20);
    r.sort_by = Some(JobSortOption::SalaryMax);
    r.sort_order = Some(SortOrder::Asc);
    let q = build_search_query(&r);
    assert_eq!(
        q.query,
        "SELECT * FROM job_descriptions WHERE 1=1 AND (title LIKE ?1 OR company LIKE ?1 OR content LIKE ?1) AND company LIKE ?2 AND salary_range_max >= ?3 AND industry LIKE ?4 AND is_archived = FALSE ORDER BY salary_range_max ASC LIMIT ?5 OFFSET ?6"
    );
    assert_eq!(
        q.count_query,
        "SELECT COUNT(*) as total FROM job_descriptions WHERE 1=1 AND (title LIKE ?1 OR company LIKE ?1 OR content LIKE ?1) AND company LIKE ?2 AND salary_range_max >= ?3 AND industry LIKE ?4 AND is_archived = FALSE"
    );
    assert_eq!(q.params, vec!["%rust%", "%Acme%", "-5", "%tech%", "10", "20"]);
    assert_eq!(q.count_params, 4);
}

#[test]
fn search_query_defaults() {
    let mut r = request();
    r.include_archived = Some(true);
    let q = build_search_query(&r);
    assert_eq!(q.query, "SELECT * FROM job_descriptions WHERE 1=1 ORDER BY updated_at DESC");
    assert!(q.params.is_empty());
    assert_eq!(q.count_params, 0);
    let mut r = request();
    r.location = Some("Berlin".to_string());
    let q = build_search_query(&r);
    assert_eq!(
        q.query,
        "SELECT * FROM job_descriptions WHERE 1=1 AND location LIKE ?1 AND is_archived = FALSE ORDER BY updated_at DESC"
    );
    assert_eq!(q.count_params, 1);
    // the count query binds exactly the filter values, paging or not
    let mut r = request();
    r.company = Some("Acme".to_string());
    r.location = Some("Berlin".to_string());
    let q = build_search_query(&r);
    assert_eq!(q.params.len(), 2);
    assert_eq!(q.count_params, 2);
    r.limit = Some(5);
    let q = build_search_query(&r);
    assert_eq!(q.params.len(), 3);
    assert_eq!(q.count_params, 2);
    assert!(search_has_more(Some(3), 3));
    assert!(!search_has_more(Some(3), 2));
    assert!(!search_has_more(None, 3));
}
