use linkd::cli::{command_line, list_lines};
use linkd::model::{Ecosystem, IsolationMode, LinkEntry, LinkMode, LinkSyncStatus, LinkdError};
use linkd::monitor::MonitorState;
use linkd::screen::{error_message, FOOTER_TEXT, WIZARD_FOOTER_TEXT};
use linkd::wizard::{WizardState, WizardStep};

fn link(name: &str, eco: Ecosystem, status: LinkSyncStatus) -> LinkEntry {
    LinkEntry {
        id: String::new(),
        package_name: name.to_string(),
        source_path: format!("/w/{name}"),
        consumer_root: "/w/app".to_string(),
        sync_target: format!("/w/app/node_modules/{name}"),
        ecosystem: eco,
        link_mode: LinkMode::PackageManager,
        custom_target: None,
        isolation_mode: IsolationMode::ProjectLocal,
        strategy: "Copy".to_string(),
        last_sync_status: status,
        last_sync_at: None,
        file_count: 12,
    }
}

#[test]
fn monitor_header_names_daemon_uptime_hint_and_status() {
    let mut m = MonitorState::new(Some(4242), 1_000);
    assert_eq!(m.header_text(3_662_000 + 1_000), " linkd live monitor ─ [Daemon: Active · PID 4242 · Up 01:01:02] ");
    m.pm_hint = Some("run pnpm install".to_string());
    m.set_status("Logs cleared".to_string(), 2_000);
    assert_eq!(
        m.header_text(1_000),
        " linkd live monitor ─ [Daemon: Active · PID 4242 · Up 00:00:00]  [PM: run pnpm install]  [Logs cleared] "
    );
    let m = MonitorState::new(None, 5_000);
    assert_eq!(m.header_text(0), " linkd live monitor ─ [Daemon: Active · Running · Up 00:00:00] ");
}

#[test]
fn monitor_link_rows_mark_the_selection() {
    let mut m = MonitorState::new(None, 0);
    assert_eq!(m.links_title(), " Active Links (0) ");
    assert_eq!(m.link_rows(), vec!["  No active links. Run `linkd link` to add a package.".to_string()]);
    assert_eq!(m.inspector_lines(), vec!["Select a link to inspect details".to_string()]);
    m.replace_links(vec![
        link("ui", Ecosystem::Npm, LinkSyncStatus::Synced),
        link("core", Ecosystem::Dart, LinkSyncStatus::Error),
    ]);
    m.selected_index = 1;
    assert_eq!(m.links_title(), " Active Links (2) ");
    assert_eq!(
        m.link_rows(),
        vec!["  ui [npm] [IDLE]".to_string(), "> core [dart/flutter] [ERR]".to_string()]
    );
}

#[test]
fn monitor_inspector_details_the_selected_link() {
    let mut m = MonitorState::new(None, 0);
    let mut l = link("ui", Ecosystem::Npm, LinkSyncStatus::Paused);
    l.isolation_mode = IsolationMode::Shadow;
    l.link_mode = LinkMode::CustomPath;
    l.last_sync_at = Some("2024-05-01 10:20:30 UTC".to_string());
    m.replace_links(vec![l]);
    assert_eq!(
        m.inspector_lines(),
        vec![
            "Package:  ui".to_string(),
            "Source:   /w/ui".to_string(),
            "Target:   /w/app/node_modules/ui".to_string(),
            "Strategy: Copy  · Mode: CustomPath  · Isolation: Shadow".to_string(),
            "Files:    12  · Status: Paused".to_string(),
            "Last Sync: 2024-05-01 10:20:30 UTC".to_string(),
        ]
    );
}

#[test]
fn monitor_log_panel_shows_its_window() {
    let mut m = MonitorState::new(None, 0);
    assert_eq!(m.logs_title(), " Live Sync & Engine Logs (0) ");
    assert_eq!(m.log_lines(5), vec!["Waiting for engine events...".to_string()]);
    m.add_log("10:00:01", "SYNC", Some("npm".to_string()), "ui started".to_string());
    m.add_log("10:00:02", "DONE", None, "ui synced".to_string());
    m.add_log("10:00:03", "ERR", Some("go".to_string()), "lib failed".to_string());
    assert_eq!(m.logs_title(), " Live Sync & Engine Logs (3) ");
    assert_eq!(
        m.log_lines(2),
        vec!["10:00:02 [DONE] ui synced".to_string(), "10:00:03 [ERR] [go] lib failed".to_string()]
    );
    m.focus_logs = true;
    m.log_scroll = 0;
    assert_eq!(m.log_lines(2), vec!["10:00:01 [SYNC] [npm] ui started".to_string(), "10:00:02 [DONE] ui synced".to_string()]);
    assert_eq!(m.log_lines(10).len(), 3);
    assert_eq!(m.log_lines(0), vec!["Waiting for engine events...".to_string()]);
    assert!(FOOTER_TEXT.starts_with("[↑/↓/j/k] Nav"));
    assert!(FOOTER_TEXT.ends_with("[q/Esc] Detach"));
}

#[test]
fn wizard_screen_follows_its_step() {
    let mut w = WizardState::new();
    assert_eq!(
        w.screen_lines(),
        vec![
            " linkd wizard — step 1/5 ".to_string(),
            "> npm package".to_string(),
            "  composer package".to_string(),
            "  custom path".to_string(),
            "↑/↓ select · Enter next · Esc cancel".to_string(),
        ]
    );
    w.step = WizardStep::Consumer;
    assert_eq!(
        w.screen_lines(),
        vec![
            " linkd wizard — step 3/5 ".to_string(),
            "Consumer: ../my-app".to_string(),
            "Type to edit · Enter next · Backspace delete · Alt+Left back · Esc cancel".to_string(),
        ]
    );
    w.step = WizardStep::Confirm;
    w.link_type = 2;
    w.start_daemon = false;
    w.error = Some(LinkdError::Other("custom target required".to_string()));
    assert_eq!(
        w.screen_lines(),
        vec![
            " linkd wizard — step 5/5 ".to_string(),
            "Source:   ./packages/my-lib".to_string(),
            "Consumer: ../my-app".to_string(),
            "Target:   ./lib/shared".to_string(),
            "Start daemon: no".to_string(),
            "Enter confirm · d toggle daemon · Esc cancel".to_string(),
            "Error: custom target required".to_string(),
        ]
    );
    assert_eq!(WIZARD_FOOTER_TEXT, " Ctrl+C cancel · Left back ");
}

#[test]
fn error_messages_carry_their_text() {
    assert_eq!(error_message(&LinkdError::PackageNotFound("no package.json".to_string())), "no package.json");
    assert_eq!(
        error_message(&LinkdError::Io { path: "/w/a".to_string(), message: "denied".to_string() }),
        "/w/a: denied"
    );
    assert_eq!(error_message(&LinkdError::PnpmGlobalStoreForbidden("/s/x".to_string())), "/s/x");
}

#[test]
fn welcome_commands_are_padded_into_columns() {
    assert_eq!(
        command_line("doctor", "[--explain <topic>]", "Validate environment"),
        format!("    doctor{}[--explain <topic>]{}Validate environment", " ".repeat(7), " ".repeat(5))
    );
    assert_eq!(command_line("init", "", "Wizard"), format!("    init{}{}Wizard", " ".repeat(9), " ".repeat(24)));
    assert_eq!(
        command_line("a-very-long-name", "an-argument-list-longer-than-24", "x"),
        "    a-very-long-name an-argument-list-longer-than-24 x"
    );
    assert_eq!(command_line("é", "", "d"), format!("    é{}{}d", " ".repeat(11), " ".repeat(24)));
}

#[test]
fn grouped_rows_show_each_package_with_its_consumers() {
    let mut m = MonitorState::new(None, 0);
    let mut a = link("ui", Ecosystem::Npm, LinkSyncStatus::Synced);
    a.consumer_root = "/w/web".to_string();
    let b = link("core", Ecosystem::Cargo, LinkSyncStatus::Pending);
    let mut c = link("ui", Ecosystem::Npm, LinkSyncStatus::Error);
    c.consumer_root = "/w/admin".to_string();
    m.replace_links(vec![a, b, c]);
    m.selected_index = 2;
    m.group_mode = true;
    assert_eq!(
        m.link_rows(),
        vec![
            "  📦 core [cargo] (1 consumer)".to_string(),
            "    └── /w/app [PEND]".to_string(),
            "  📦 ui [npm] (2 consumers)".to_string(),
            "    ├── /w/web [IDLE]".to_string(),
            ">   └── /w/admin [ERR]".to_string(),
        ]
    );
    m.group_mode = false;
    assert_eq!(m.link_rows().len(), 3);
    let empty = MonitorState::new(None, 0);
    assert_eq!(empty.link_rows(), vec!["  No active links. Run `linkd link` to add a package.".to_string()]);
}

#[test]
fn list_text_is_a_tree_per_package() {
    assert_eq!(
        list_lines(&Vec::new()),
        vec![
            "".to_string(),
            "  No active synchronized links.".to_string(),
            "  Use: linkd link <source> [consumer]".to_string(),
            "  Or:  linkd use <package>".to_string(),
            "".to_string(),
        ]
    );
    let mut a = link("ui", Ecosystem::Npm, LinkSyncStatus::Synced);
    a.consumer_root = "/w/web".to_string();
    a.sync_target = "/w/web/node_modules/ui".to_string();
    let b = link("core", Ecosystem::Cargo, LinkSyncStatus::Paused);
    let mut c = link("ui", Ecosystem::Npm, LinkSyncStatus::Error);
    c.consumer_root = "/w/admin".to_string();
    c.sync_target = "/w/admin/node_modules/ui".to_string();
    c.file_count = 3;
    assert_eq!(
        list_lines(&vec![a, b, c]),
        vec![
            "".to_string(),
            "  🔗 Active Synchronized Links (3) — hierarchical view".to_string(),
            "".to_string(),
            "  📦 core [cargo] (1 consumer)".to_string(),
            "     Source: /w/core".to_string(),
            "     └── 📂 /w/app → /w/app/node_modules/core  (Copy, 12 files) [⏸ paused]".to_string(),
            "".to_string(),
            "  📦 ui [npm] (2 consumers)".to_string(),
            "     Source: /w/ui".to_string(),
            "     ├── 📂 /w/web → /w/web/node_modules/ui  (Copy, 12 files) [✓ synced]".to_string(),
            "     └── 📂 /w/admin → /w/admin/node_modules/ui  (Copy, 3 files) [✗ error]".to_string(),
            "".to_string(),
        ]
    );
}
