use open_cloud_luau_execute::{
    create_task_url, exchange_report, is_success_status, task_logs_url, task_query_url, LogView,
};

#[test]
fn task_url_without_version_targets_live_place() {
    let url = create_task_url("1818", "4242", None);
    assert_eq!(
        url,
        "https://apis.roblox.com/cloud/v2/universes/4242/places/1818/luau-execution-session-tasks"
    );
    assert!(!url.contains("/versions/"));
}

#[test]
fn task_url_with_version_targets_that_version() {
    let url = create_task_url("1818", "4242", Some("17"));
    assert_eq!(
        url,
        "https://apis.roblox.com/cloud/v2/universes/4242/places/1818/versions/17/luau-execution-session-tasks"
    );
}

#[test]
fn task_url_keeps_ids_verbatim_and_is_repeatable() {
    let a = create_task_url("pl ace", "uni/verse", Some("v 1"));
    let b = create_task_url("pl ace", "uni/verse", Some("v 1"));
    assert_eq!(a, b);
    assert!(a.contains("/universes/uni/verse/places/pl ace/versions/v 1/"));
    let empty = create_task_url("", "", None);
    assert_eq!(
        empty,
        "https://apis.roblox.com/cloud/v2/universes//places//luau-execution-session-tasks"
    );
}

#[test]
fn query_and_logs_urls() {
    let path = "universes/1/places/2/luau-execution-sessions/abc/tasks/def";
    assert_eq!(
        task_query_url(path),
        format!("https://apis.roblox.com/cloud/v2/{path}")
    );
    assert_eq!(
        task_logs_url(path, LogView::Flat),
        format!("https://apis.roblox.com/cloud/v2/{path}/logs?view=FLAT")
    );
    assert_eq!(
        task_logs_url(path, LogView::Structured),
        format!("https://apis.roblox.com/cloud/v2/{path}/logs?view=STRUCTURED")
    );
}

#[test]
fn success_statuses_are_the_2xx_range() {
    assert!(!is_success_status(199));
    assert!(is_success_status(200));
    assert!(is_success_status(204));
    assert!(is_success_status(299));
    assert!(!is_success_status(300));
    assert!(!is_success_status(404));
    assert!(!is_success_status(500));
}

#[test]
fn exchange_report_names_status_and_url() {
    assert_eq!(exchange_report(200, "https://x/y"), "[SUCCESS] 200 https://x/y");
    assert_eq!(exchange_report(403, "https://x/y"), "[ERROR  ] 403 https://x/y");
    assert_eq!(exchange_report(0, "u"), "[ERROR  ] 0 u");
}
