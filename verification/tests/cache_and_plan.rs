use wallpaper_sync::cache::{wallpaper_file_name, Cache};
use wallpaper_sync::plan::{needs_fetch, plan_after_fetch, apply_action, Action, FetchOutcome, RunError};
use wallpaper_sync::select::{get_wallpaper_for_date, get_wallpaper_latest};
use wallpaper_sync::wallpaper_response::Image;

fn image(startdate: &str, url: &str) -> Image {
    Image { startdate: startdate.to_string(), url: url.to_string() }
}

#[test]
fn select_first_matching_entry() {
    let images = vec![
        image("20240502", "http://x/a.jpg"),
        image("20240501", "http://x/b.jpg"),
        image("20240501", "http://x/c.jpg"),
    ];
    let r = get_wallpaper_for_date(&"20240501".to_string(), &images);
    assert_eq!(r, Some("http://x/b.jpg".to_string()));
}

#[test]
fn select_no_match() {
    let images = vec![image("20240502", "http://x/a.jpg")];
    assert_eq!(get_wallpaper_for_date(&"20240501".to_string(), &images), None);
    assert_eq!(get_wallpaper_for_date(&"20240501".to_string(), &Vec::new()), None);
}

#[test]
fn latest_is_first_entry() {
    let images = vec![
        image("20240502", "http://x/a.jpg"),
        image("20240501", "http://x/b.jpg"),
    ];
    let r = get_wallpaper_latest(&images);
    assert_eq!(r, Some(("20240502".to_string(), "http://x/a.jpg".to_string())));
    assert_eq!(get_wallpaper_latest(&Vec::new()), None);
}

#[test]
fn cache_membership() {
    let cache = Cache::from_keys(vec!["20240430".to_string(), "20240501".to_string()]);
    assert!(cache.has_wallpaper_for_date(&"20240501".to_string()));
    assert!(cache.has_wallpaper_for_date(&"20240430".to_string()));
    assert!(!cache.has_wallpaper_for_date(&"20240502".to_string()));
}

#[test]
fn cached_day_needs_no_fetch() {
    let today = "20240501".to_string();
    let cache = Cache::from_keys(vec![today.clone()]);
    assert!(!needs_fetch(&cache, &today));
    assert!(needs_fetch(&Cache::new(), &today));
}

#[test]
fn eviction_is_idempotent() {
    let key = "20240501".to_string();
    let absent = "20240430".to_string();
    let mut cache = Cache::from_keys(vec![key.clone()]);
    cache.evict(&absent);
    assert!(cache.has_wallpaper_for_date(&key));
    cache.evict(&key);
    assert!(!cache.has_wallpaper_for_date(&key));
    cache.evict(&key);
    assert!(!cache.has_wallpaper_for_date(&key));
}

#[test]
fn plan_saves_todays_entry_and_evicts_yesterday() {
    let today = "20240501".to_string();
    let yesterday = "20240430".to_string();
    let mut cache = Cache::from_keys(vec![yesterday.clone()]);
    let images = vec![
        image("20240502", "http://x/a.jpg"),
        image("20240501", "http://x/b.jpg"),
    ];
    let a = plan_after_fetch(&cache, &today, &FetchOutcome::Response(images));
    match &a {
        Action::SaveToday { url } => assert_eq!(url.as_str(), "http://x/b.jpg"),
        _ => panic!("expected a save under today's key"),
    }
    assert!(a.is_success());
    assert!(a.evicts_yesterday());
    apply_action(&mut cache, &a, &today, &yesterday);
    assert!(cache.has_wallpaper_for_date(&today));
    assert!(!cache.has_wallpaper_for_date(&yesterday));
}

#[test]
fn plan_falls_back_to_first_entry_without_eviction() {
    let today = "20240503".to_string();
    let yesterday = "20240502".to_string();
    let mut cache = Cache::from_keys(vec!["20240430".to_string()]);
    let images = vec![
        image("20240502", "http://x/a.jpg"),
        image("20240501", "http://x/b.jpg"),
    ];
    let a = plan_after_fetch(&cache, &today, &FetchOutcome::Response(images));
    match &a {
        Action::SaveFallback { date, url } => {
            assert_eq!(date.as_str(), "20240502");
            assert_eq!(url.as_str(), "http://x/a.jpg");
        },
        _ => panic!("expected a fallback save"),
    }
    assert!(a.is_success());
    assert!(!a.evicts_yesterday());
    apply_action(&mut cache, &a, &today, &yesterday);
    assert!(cache.has_wallpaper_for_date(&"20240502".to_string()));
    assert!(cache.has_wallpaper_for_date(&"20240430".to_string()));
}

#[test]
fn plan_skips_cached_fallback() {
    let today = "20240503".to_string();
    let cache = Cache::from_keys(vec!["20240502".to_string()]);
    let images = vec![image("20240502", "http://x/a.jpg")];
    let a = plan_after_fetch(&cache, &today, &FetchOutcome::Response(images));
    assert!(matches!(a, Action::SkipFallbackCached));
    assert!(a.is_success());
    assert!(!a.evicts_yesterday());
}

#[test]
fn plan_reports_failed_fetch_and_keeps_cache() {
    let today = "20240501".to_string();
    let yesterday = "20240430".to_string();
    let mut cache = Cache::from_keys(vec![yesterday.clone()]);
    let a = plan_after_fetch(&cache, &today, &FetchOutcome::NetworkFailure);
    assert!(matches!(a, Action::Fail { error: RunError::NetworkError }));
    assert!(!a.is_success());
    apply_action(&mut cache, &a, &today, &yesterday);
    assert!(cache.has_wallpaper_for_date(&yesterday));
    assert!(!cache.has_wallpaper_for_date(&today));
}

#[test]
fn plan_reports_bad_body() {
    let today = "20240501".to_string();
    let yesterday = "20240430".to_string();
    let mut cache = Cache::from_keys(vec![yesterday.clone()]);
    let a = plan_after_fetch(&cache, &today, &FetchOutcome::BadBody);
    assert!(matches!(a, Action::Fail { error: RunError::ParseError }));
    assert!(!a.is_success());
    apply_action(&mut cache, &a, &today, &yesterday);
    assert!(cache.has_wallpaper_for_date(&yesterday));
    assert!(!cache.has_wallpaper_for_date(&today));
}

#[test]
fn plan_reports_empty_list() {
    let today = "20240501".to_string();
    let a = plan_after_fetch(&Cache::new(), &today, &FetchOutcome::Response(Vec::new()));
    assert!(matches!(a, Action::Fail { error: RunError::NoMatchError }));
    assert!(!a.is_success());
}

#[test]
fn file_name_appends_extension() {
    assert_eq!(wallpaper_file_name(&"20240501".to_string()), "20240501.jpg");
}

#[test]
fn empty_cache_single_entry_run() {
    let today = "2024-05-01".to_string();
    let yesterday = "2024-04-30".to_string();
    let mut cache = Cache::new();
    assert!(needs_fetch(&cache, &today));
    let images = vec![image("2024-05-01", "http://x/img.jpg")];
    let a = plan_after_fetch(&cache, &today, &FetchOutcome::Response(images));
    match &a {
        Action::SaveToday { url } => assert_eq!(url.as_str(), "http://x/img.jpg"),
        _ => panic!("expected a save under today's key"),
    }
    assert!(a.is_success());
    assert_eq!(wallpaper_file_name(&today), "2024-05-01.jpg");
    apply_action(&mut cache, &a, &today, &yesterday);
    assert!(cache.has_wallpaper_for_date(&today));
}
