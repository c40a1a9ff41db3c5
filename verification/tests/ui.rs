use linkd::cli::{
    consumer_label, eco_label, explain_topic, group_by_package, init_choice_ecosystem,
    inotify_watches, is_executable_on_path, link_issues, parse_u64, register_package,
    socket_mode_ok, status_badge, status_label, EcosystemArg, LinkIssue, AUTOSTART_TEXT,
    PNPM_STORE_TEXT,
};
use linkd::fs::{EntryKind, FileText, FsEntry, FsView};
use linkd::model::{Ecosystem, IsolationMode, LinkEntry, LinkMode, LinkSyncStatus};
use linkd::monitor::{DaemonEvent, MonitorAction, MonitorKey, MonitorState, MAX_LOGS};
use linkd::wizard::{WizardKey, WizardOutcome, WizardState, WizardStep};

fn file(path: &str, text: &str) -> FsEntry {
    FsEntry {
        path: path.to_string(),
        kind: EntryKind::File,
        text: FileText::Text(text.to_string()),
        canonical: None,
    }
}

fn dir(path: &str) -> FsEntry {
    FsEntry { path: path.to_string(), kind: EntryKind::Dir, text: FileText::Unread, canonical: None }
}

fn entry(name: &str, eco: Ecosystem) -> LinkEntry {
    LinkEntry {
        id: format!("id-{name}"),
        package_name: name.to_string(),
        source_path: format!("/w/{name}"),
        consumer_root: "/w/app".to_string(),
        sync_target: format!("/w/app/node_modules/{name}"),
        ecosystem: eco,
        link_mode: LinkMode::PackageManager,
        custom_target: None,
        isolation_mode: IsolationMode::ProjectLocal,
        strategy: "Copy".to_string(),
        last_sync_status: LinkSyncStatus::Pending,
        last_sync_at: None,
        file_count: 0,
    }
}

#[test]
fn log_keeps_the_newest_thousand_lines() {
    let mut m = MonitorState::new(Some(42), 0);
    for i in 0..(MAX_LOGS as u64 + 5) {
        m.add_log("12:00:00", "INFO", None, format!("line {i}"));
    }
    assert_eq!(m.logs.len(), MAX_LOGS);
    assert_eq!(m.logs[0].message, "line 5");
    assert_eq!(m.logs[MAX_LOGS - 1].message, "line 1004");
}

#[test]
fn uptime_is_hours_minutes_seconds() {
    let m = MonitorState::new(None, 1_000);
    assert_eq!(m.uptime_str(1_000 + 3_725_999), "01:02:05");
    assert_eq!(m.uptime_str(500), "00:00:00");
    assert_eq!(m.uptime_str(1_000 + 360_000_000), "100:00:00");
}

#[test]
fn daemon_events_update_links_and_log() {
    let mut m = MonitorState::new(None, 0);
    m.handle_daemon_event(
        DaemonEvent::Snapshot {
            links: vec![entry("a", Ecosystem::Npm), entry("b", Ecosystem::Go)],
            pm_install_hint: Some("pnpm install".to_string()),
        },
        "10:00:00",
        "2024-01-01T10:00:00Z",
    );
    assert_eq!(m.links.len(), 2);
    assert_eq!(m.pm_hint, Some("pnpm install".to_string()));
    m.handle_daemon_event(
        DaemonEvent::SyncStarted { package_name: "b".to_string(), files_count: 12 },
        "10:00:01",
        "x",
    );
    assert_eq!(m.links[1].last_sync_status, LinkSyncStatus::Syncing);
    assert_eq!(m.logs.last().unwrap().message, "b sync started (12 files)");
    assert_eq!(m.logs.last().unwrap().level, "SYNC");
    m.handle_daemon_event(
        DaemonEvent::SyncCompleted { package_name: "b".to_string(), duration_ms: 37, files_synced: 12 },
        "10:00:02",
        "2024-01-01T10:00:02Z",
    );
    assert_eq!(m.links[1].last_sync_status, LinkSyncStatus::Synced);
    assert_eq!(m.links[1].file_count, 12);
    assert_eq!(m.links[1].last_sync_at, Some("2024-01-01T10:00:02Z".to_string()));
    assert_eq!(m.logs.last().unwrap().message, "b synced 12 files in 37ms");
    m.handle_daemon_event(
        DaemonEvent::SyncFailed { package_name: "a".to_string(), error: "disk full".to_string() },
        "10:00:03",
        "x",
    );
    assert_eq!(m.links[0].last_sync_status, LinkSyncStatus::Error);
    assert_eq!(m.logs.last().unwrap().message, "a sync error: disk full");
    m.handle_daemon_event(
        DaemonEvent::LinkStatusChanged {
            package_name: "a".to_string(),
            status: LinkSyncStatus::Paused,
            last_synced_at: None,
        },
        "10:00:04",
        "x",
    );
    assert_eq!(m.links[0].last_sync_status, LinkSyncStatus::Paused);
    m.handle_daemon_event(
        DaemonEvent::LogMessage {
            level: "HINT".to_string(),
            ecosystem: Some("npm".to_string()),
            message: "run install".to_string(),
        },
        "10:00:05",
        "x",
    );
    assert_eq!(m.logs.len(), 4);
    assert_eq!(m.logs[3].ecosystem, Some("npm".to_string()));
    m.selected_index = 1;
    m.handle_daemon_event(
        DaemonEvent::Snapshot { links: vec![entry("a", Ecosystem::Npm)], pm_install_hint: None },
        "10:00:06",
        "x",
    );
    assert_eq!(m.selected_index, 0);
}

#[test]
fn keys_move_act_and_quit() {
    let mut m = MonitorState::new(None, 0);
    m.replace_links(vec![entry("a", Ecosystem::Npm), entry("b", Ecosystem::Composer)]);
    assert!(matches!(m.handle_key(MonitorKey::Up, "t", 0), MonitorAction::Nothing));
    assert_eq!(m.selected_index, 0);
    m.handle_key(MonitorKey::Char('j'), "t", 0);
    m.handle_key(MonitorKey::Down, "t", 0);
    assert_eq!(m.selected_index, 1);
    match m.handle_key(MonitorKey::Char('r'), "09:00:00", 10) {
        MonitorAction::Reconcile(id) => assert_eq!(id, "id-b"),
        other => panic!("unexpected {:?}", other),
    }
    assert_eq!(m.logs.last().unwrap().message, "Manual reconcile requested for b");
    assert_eq!(m.logs.last().unwrap().ecosystem, Some("Composer".to_string()));
    assert_eq!(m.status_message, Some(("Reconcile triggered for b".to_string(), 10)));
    match m.handle_key(MonitorKey::Char(' '), "t", 11) {
        MonitorAction::TogglePause(p) => assert_eq!(p, "b"),
        other => panic!("unexpected {:?}", other),
    }
    match m.handle_key(MonitorKey::Char('u'), "t", 12) {
        MonitorAction::Unlink(p) => assert_eq!(p, "b"),
        other => panic!("unexpected {:?}", other),
    }
    assert_eq!(m.status_message, Some(("Unlinked b".to_string(), 12)));
    m.expire_status(3_012);
    assert!(m.status_message.is_some());
    m.expire_status(3_013);
    assert!(m.status_message.is_none());
    m.handle_key(MonitorKey::Tab, "t", 0);
    assert!(m.focus_logs);
    m.handle_key(MonitorKey::Down, "t", 0);
    assert_eq!(m.log_scroll, 1);
    m.handle_key(MonitorKey::Down, "t", 0);
    assert_eq!(m.log_scroll, 1);
    assert_eq!(m.log_window_start(1), 1);
    m.handle_key(MonitorKey::Char('c'), "t", 20);
    assert!(m.logs.is_empty());
    assert_eq!(m.log_scroll, 0);
    assert_eq!(m.status_message, Some(("Logs cleared".to_string(), 20)));
    assert!(matches!(m.handle_key(MonitorKey::Char('q'), "t", 0), MonitorAction::Quit));
    assert!(matches!(m.handle_key(MonitorKey::CtrlC, "t", 0), MonitorAction::Quit));
    m.replace_links(vec![]);
    assert!(matches!(m.handle_key(MonitorKey::Char('r'), "t", 0), MonitorAction::Nothing));
}

#[test]
fn log_window_follows_the_newest_lines() {
    let mut m = MonitorState::new(None, 0);
    for _ in 0..10 {
        m.add_log("t", "INFO", None, "x".to_string());
    }
    assert_eq!(m.log_window_start(4), 6);
    assert_eq!(m.log_window_start(20), 0);
    m.focus_logs = true;
    m.log_scroll = 2;
    assert_eq!(m.log_window_start(4), 2);
    m.log_scroll = 9;
    assert_eq!(m.log_window_start(4), 6);
}

#[test]
fn wizard_steps_forward_and_back() {
    let fs = FsView { entries: vec![] };
    let roots: Vec<String> = Vec::new();
    let mut w = WizardState::new();
    assert_eq!(w.step_index(), 1);
    w.handle_key(WizardKey::Down, &fs, &roots);
    w.handle_key(WizardKey::Down, &fs, &roots);
    w.handle_key(WizardKey::Down, &fs, &roots);
    assert_eq!(w.link_type, 2);
    assert_eq!(w.ecosystem(), Ecosystem::Custom);
    w.next();
    assert_eq!(w.step, WizardStep::Source);
    w.back();
    assert_eq!(w.step, WizardStep::LinkType);
    w.next();
    w.next();
    w.next();
    assert_eq!(w.step, WizardStep::Target);
    assert_eq!(w.active_field(), "./lib/shared");
    w.handle_key(WizardKey::Backspace, &fs, &roots);
    w.handle_key(WizardKey::Char('X'), &fs, &roots);
    assert_eq!(w.target, "./lib/shareX");
    w.handle_key(WizardKey::AltLeft, &fs, &roots);
    assert_eq!(w.step, WizardStep::Consumer);
    w.handle_key(WizardKey::Char('h'), &fs, &roots);
    assert_eq!(w.consumer, "../my-apph");
    w.active_field_mut().push('!');
    assert_eq!(w.consumer, "../my-apph!");
    assert!(matches!(w.handle_key(WizardKey::Esc, &fs, &roots), WizardOutcome::Cancelled));
}

#[test]
fn wizard_finishes_or_keeps_the_error() {
    let fs = FsView { entries: vec![file("/w/lib/package.json", r#"{"name": "ui"}"#)] };
    let roots: Vec<String> = Vec::new();
    let mut w = WizardState::new();
    w.source = "/w/lib".to_string();
    w.consumer = "/w/app".to_string();
    w.next();
    w.next();
    w.next();
    assert_eq!(w.step, WizardStep::Confirm);
    w.handle_key(WizardKey::Char('d'), &fs, &roots);
    assert!(!w.start_daemon);
    match w.handle_key(WizardKey::Enter, &fs, &roots) {
        WizardOutcome::Finished(r) => {
            assert_eq!(r.source, "/w/lib");
            assert_eq!(r.consumer, "/w/app");
            assert_eq!(r.target, None);
            assert_eq!(r.ecosystem, Ecosystem::Npm);
            assert!(!r.start_daemon);
        },
        other => panic!("unexpected {:?}", other),
    }
    w.consumer = "/w/lib/inner".to_string();
    assert!(matches!(w.handle_key(WizardKey::Enter, &fs, &roots), WizardOutcome::Continue));
    assert!(w.error.is_some());
    w.handle_key(WizardKey::Left, &fs, &roots);
    assert_eq!(w.step, WizardStep::Consumer);
    assert!(w.error.is_none());
}

#[test]
fn cli_labels_and_arguments() {
    assert_eq!(EcosystemArg::Flutter.to_ecosystem(), Ecosystem::Dart);
    assert_eq!(EcosystemArg::Jvm.to_ecosystem(), Ecosystem::Jvm);
    assert_eq!(eco_label(Ecosystem::Dart), "[dart/flutter]");
    assert_eq!(status_label(LinkSyncStatus::Paused), "⏸ paused");
    assert_eq!(status_badge(LinkSyncStatus::Synced), "[IDLE]");
    assert_eq!(consumer_label(1), "1 consumer");
    assert_eq!(consumer_label(12), "12 consumers");
    assert_eq!(consumer_label(0), "0 consumers");
    assert_eq!(init_choice_ecosystem("Go (go.mod / vendor)"), Ecosystem::Go);
    assert_eq!(init_choice_ecosystem("something else"), Ecosystem::Npm);
}

#[test]
fn explain_topics() {
    assert_eq!(explain_topic("pnpm-store"), Ok(PNPM_STORE_TEXT));
    assert!(PNPM_STORE_TEXT.contains("node_modules/.linkd-shadow/<package>"));
    assert_eq!(explain_topic("rust"), explain_topic("cargo"));
    assert_eq!(explain_topic("autostart"), Ok(AUTOSTART_TEXT));
    assert_eq!(explain_topic("nope"), Err("unknown explain topic: nope".to_string()));
}

#[test]
fn groups_are_sorted_by_package() {
    let links = vec![
        entry("zeta", Ecosystem::Npm),
        entry("alpha", Ecosystem::Npm),
        entry("zeta", Ecosystem::Npm),
        entry("beta", Ecosystem::Go),
        entry("alpha", Ecosystem::Npm),
    ];
    let g = group_by_package(&links);
    assert_eq!(
        g,
        vec![
            ("alpha".to_string(), vec![1, 4]),
            ("beta".to_string(), vec![3]),
            ("zeta".to_string(), vec![0, 2]),
        ]
    );
}

#[test]
fn numbers_parse_like_u64_from_str() {
    assert_eq!(parse_u64("524288"), Some(524288));
    assert_eq!(parse_u64("+7"), Some(7));
    assert_eq!(parse_u64(""), None);
    assert_eq!(parse_u64("+"), None);
    assert_eq!(parse_u64("12a"), None);
    assert_eq!(parse_u64("-1"), None);
    assert_eq!(parse_u64("18446744073709551615"), Some(u64::MAX));
    assert_eq!(parse_u64("18446744073709551616"), None);
    for n in [0u64, 9, 10, 99, 1234567890, u64::MAX] {
        assert_eq!(parse_u64(&n.to_string()), Some(n));
    }
    assert_eq!(inotify_watches(" 8192\n"), 8192);
    assert_eq!(inotify_watches("lots"), 0);
    assert!(socket_mode_ok(0o100600));
    assert!(!socket_mode_ok(0o644));
}

#[test]
fn doctor_checks_links_and_path() {
    let fs = FsView {
        entries: vec![file("/w/app/.pnp.cjs", ""), dir("/s"), file("/usr/bin/composer", "")],
    };
    let roots = vec!["/s".to_string()];
    let mut l = entry("a", Ecosystem::Npm);
    l.sync_target = "/s/a".to_string();
    assert_eq!(
        link_issues(&fs, &l, &roots),
        vec![LinkIssue::YarnPnp, LinkIssue::StaleSource, LinkIssue::InGlobalStore]
    );
    let dirs = vec!["/bin".to_string(), "/usr/bin".to_string()];
    assert!(is_executable_on_path(&fs, "composer", &dirs));
    assert!(!is_executable_on_path(&fs, "pnpm", &dirs));
}

#[test]
fn registration_uses_the_given_name_or_the_manifest() {
    let fs = FsView { entries: vec![file("/w/lib/go.mod", "module github.com/acme/lib\n")] };
    let (eco, name) = register_package(&fs, "/w/lib", None, None);
    assert_eq!(eco, Ecosystem::Go);
    assert_eq!(name.unwrap(), "github.com/acme/lib");
    let (eco, name) = register_package(&fs, "/w/lib", Some("mine".to_string()), Some(Ecosystem::Custom));
    assert_eq!(eco, Ecosystem::Custom);
    assert_eq!(name.unwrap(), "mine");
}

#[test]
fn g_switches_the_group_mode() {
    let mut m = MonitorState::new(None, 0);
    m.replace_links(vec![entry("b", Ecosystem::Npm), entry("a", Ecosystem::Go), entry("b", Ecosystem::Npm)]);
    assert!(!m.group_mode);
    assert!(matches!(m.handle_key(MonitorKey::Char('g'), "t", 1), MonitorAction::Nothing));
    assert!(m.group_mode);
    assert_eq!(m.selected_index, 0);
    assert!(m.logs.is_empty());
    m.handle_key(MonitorKey::Char('g'), "t", 2);
    assert!(!m.group_mode);
}

#[test]
fn reconcile_names_the_link_not_the_package() {
    let mut m = MonitorState::new(None, 0);
    let mut first = entry("ui", Ecosystem::Npm);
    first.id = "one".to_string();
    let mut second = entry("ui", Ecosystem::Npm);
    second.id = "two".to_string();
    second.consumer_root = "/w/other".to_string();
    m.replace_links(vec![first, second]);
    m.handle_key(MonitorKey::Down, "t", 0);
    match m.handle_key(MonitorKey::Char('r'), "t", 1) {
        MonitorAction::Reconcile(id) => assert_eq!(id, "two"),
        other => panic!("unexpected {:?}", other),
    }
}

#[test]
fn wizard_keys_touch_only_their_fields() {
    let fs = FsView { entries: Vec::new() };
    let roots: Vec<String> = Vec::new();
    let mut w = WizardState::new();
    w.handle_key(WizardKey::Enter, &fs, &roots);
    w.handle_key(WizardKey::Enter, &fs, &roots);
    assert_eq!(w.step, WizardStep::Consumer);
    w.handle_key(WizardKey::Char('!'), &fs, &roots);
    assert_eq!(w.consumer, "../my-app!");
    assert_eq!(w.source, "./packages/my-lib");
    assert_eq!(w.target, "./lib/shared");
    assert!(w.start_daemon);
    assert_eq!(w.link_type, 0);
    w.handle_key(WizardKey::Enter, &fs, &roots);
    assert_eq!(w.step, WizardStep::Confirm);
    assert_eq!(w.consumer, "../my-app!");
    assert_eq!(w.source, "./packages/my-lib");
    w.handle_key(WizardKey::Left, &fs, &roots);
    assert_eq!(w.step, WizardStep::Consumer);
    w.handle_key(WizardKey::Backspace, &fs, &roots);
    assert_eq!(w.consumer, "../my-app");
    assert_eq!(w.target, "./lib/shared");
}
