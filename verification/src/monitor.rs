//! The state of the live monitor: the links that the daemon reports, the
//! log it streams, and what the keys of the user do to them. Drawing the
//! screen and talking to the daemon are left to the caller, which hands in
//! the events, the keys and the time.

use vstd::prelude::*;
use crate::manifest::opt_str;
use crate::model::{Ecosystem, LinkEntry, LinkEntryView, LinkSyncStatus};
use crate::text::{dec, from_chars, push_decimal, push_str};

verus! {

/// The most log lines that the monitor keeps.
pub const MAX_LOGS: usize = 1000;

/// How long a status message stays, in milliseconds.
pub const STATUS_TTL_MS: u64 = 3000;

/// One line of the monitor's log.
#[derive(Debug)]
pub struct LogItem {
    pub time: String,
    pub level: String,
    pub ecosystem: Option<String>,
    pub message: String,
}

/// A log line as a value of the specification.
pub struct LogView {
    pub time: Seq<char>,
    pub level: Seq<char>,
    pub ecosystem: Option<Seq<char>>,
    pub message: Seq<char>,
}

impl View for LogItem {
    type V = LogView;

    open spec fn view(&self) -> LogView {
        LogView {
            time: self.time@,
            level: self.level@,
            ecosystem: opt_str(self.ecosystem),
            message: self.message@,
        }
    }
}

/// What the daemon reports to the monitor.
#[derive(Debug)]
pub enum DaemonEvent {
    /// All links, and the install hint of the consumer's package manager.
    Snapshot { links: Vec<LinkEntry>, pm_install_hint: Option<String> },
    LinkStatusChanged { package_name: String, status: LinkSyncStatus, last_synced_at: Option<String> },
    SyncStarted { package_name: String, files_count: u64 },
    SyncCompleted { package_name: String, duration_ms: u64, files_synced: u64 },
    SyncFailed { package_name: String, error: String },
    LogMessage { level: String, ecosystem: Option<String>, message: String },
}

/// A key that the monitor reacts to.
#[derive(Clone, Copy, Debug, PartialEq, Eq, Structural)]
pub enum MonitorKey {
    CtrlC,
    Esc,
    Tab,
    Up,
    Down,
    Char(char),
    Other,
}

/// What the caller has to do after a key.
#[derive(Debug)]
pub enum MonitorAction {
    Nothing,
    /// Leave the monitor.
    Quit,
    /// Ask the daemon to reconcile the link with this id.
    Reconcile(String),
    /// Ask the daemon to pause or resume this package.
    TogglePause(String),
    /// Ask the daemon to remove this package's link, then reload the links.
    Unlink(String),
}

/// The monitor's state. Times are milliseconds on the caller's clock.
#[derive(Debug)]
pub struct MonitorState {
    pub daemon_pid: Option<u32>,
    pub pm_hint: Option<String>,
    pub links: Vec<LinkEntry>,
    pub selected_index: usize,
    pub logs: Vec<LogItem>,
    pub focus_logs: bool,
    pub log_scroll: usize,
    pub started_at_ms: u64,
    /// Whether the list of links is drawn grouped by package, each package
    /// with its consumers.
    pub group_mode: bool,
    /// A message for the header, with the time it was set.
    pub status_message: Option<(String, u64)>,
}

/// The views of log lines.
pub open spec fn log_views(s: Seq<LogItem>) -> Seq<LogView> {
    s.map_values(|l: LogItem| l@)
}

/// The views of links.
pub open spec fn link_views(s: Seq<LinkEntry>) -> Seq<LinkEntryView> {
    s.map_values(|l: LinkEntry| l@)
}

/// `n.saturating_sub(1)`.
pub open spec fn last_index(n: int) -> int {
    if n > 0 { n - 1 } else { 0 }
}

/// The log after a line is added: the oldest line goes when there are more
/// than `MAX_LOGS`.
pub open spec fn capped(logs: Seq<LogView>) -> Seq<LogView> {
    if logs.len() > MAX_LOGS {
        logs.drop_first()
    } else {
        logs
    }
}

/// The index of the first link named `name` at or after `i`.
pub open spec fn first_named(links: Seq<LinkEntryView>, name: Seq<char>, i: int) -> Option<int>
    decreases links.len() - i,
{
    if i < 0 || i >= links.len() {
        None
    } else if links[i].package_name == name {
        Some(i)
    } else {
        first_named(links, name, i + 1)
    }
}

/// The links after `f` is applied to the first one named `name`.
pub open spec fn update_named(
    links: Seq<LinkEntryView>,
    name: Seq<char>,
    f: spec_fn(LinkEntryView) -> LinkEntryView,
) -> Seq<LinkEntryView> {
    match first_named(links, name, 0) {
        Some(i) => links.update(i, f(links[i])),
        None => links,
    }
}

/// A link with a new status and, where one is given, a new sync time.
pub open spec fn status_update(status: LinkSyncStatus, at: Option<Seq<char>>) -> spec_fn(LinkEntryView) -> LinkEntryView {
    |l: LinkEntryView| LinkEntryView {
        last_sync_status: status,
        last_sync_at: match at {
            Some(t) => Some(t),
            None => l.last_sync_at,
        },
        ..l
    }
}

/// The selection after the links changed: kept, unless it fell off the end
/// of a non-empty list.
pub open spec fn clamp_selection(sel: int, n: int) -> int {
    if sel >= n && n > 0 { n - 1 } else { sel }
}

/// `format!("{:?}", ecosystem)`: the name of the variant.
pub open spec fn eco_debug(e: Ecosystem) -> Seq<char> {
    match e {
        Ecosystem::Npm => "Npm"@,
        Ecosystem::Composer => "Composer"@,
        Ecosystem::Python => "Python"@,
        Ecosystem::Go => "Go"@,
        Ecosystem::Cargo => "Cargo"@,
        Ecosystem::Jvm => "Jvm"@,
        Ecosystem::Dart => "Dart"@,
        Ecosystem::Dotnet => "Dotnet"@,
        Ecosystem::Ruby => "Ruby"@,
        Ecosystem::Swift => "Swift"@,
        Ecosystem::Elixir => "Elixir"@,
        Ecosystem::Custom => "Custom"@,
    }
}

/// `format!("{:?}", ecosystem)`.
pub fn eco_debug_str(e: Ecosystem) -> (r: &'static str)
    ensures
        r@ == eco_debug(e),
{
    match e {
        Ecosystem::Npm => "Npm",
        Ecosystem::Composer => "Composer",
        Ecosystem::Python => "Python",
        Ecosystem::Go => "Go",
        Ecosystem::Cargo => "Cargo",
        Ecosystem::Jvm => "Jvm",
        Ecosystem::Dart => "Dart",
        Ecosystem::Dotnet => "Dotnet",
        Ecosystem::Ruby => "Ruby",
        Ecosystem::Swift => "Swift",
        Ecosystem::Elixir => "Elixir",
        Ecosystem::Custom => "Custom",
    }
}

/// Two decimal digits at least, as `{:02}` writes them.
pub open spec fn two_digits(n: nat) -> Seq<char> {
    if n < 10 {
        seq!['0'] + dec(n)
    } else {
        dec(n)
    }
}

/// `HH:MM:SS` for `secs` seconds.
pub open spec fn hms(secs: nat) -> Seq<char> {
    two_digits(secs / 3600) + seq![':'] + two_digits((secs % 3600) / 60) + seq![':'] + two_digits(
        secs % 60,
    )
}

fn push_two_digits(out: &mut Vec<char>, n: u64)
    ensures
        final(out)@ == old(out)@ + two_digits(n as nat),
{
    if n < 10 {
        out.push('0');
    }
    push_decimal(out, n);
    assert(final(out)@ =~= old(out)@ + two_digits(n as nat));
}

impl MonitorState {
    /// The monitor's invariant: at most `MAX_LOGS` log lines, a selection
    /// inside a non-empty list of links, a log scroll inside the log.
    pub open spec fn wf(&self) -> bool {
        &&& self.logs@.len() <= MAX_LOGS
        &&& self.links@.len() > 0 ==> self.selected_index < self.links@.len()
        &&& self.log_scroll <= last_index(self.logs@.len() as int)
    }

    /// A monitor that has seen nothing yet, started at `now_ms`.
    pub fn new(daemon_pid: Option<u32>, now_ms: u64) -> (r: MonitorState)
        ensures
            r.wf(),
            r.daemon_pid == daemon_pid,
            r.pm_hint is None,
            r.links@.len() == 0,
            r.selected_index == 0,
            r.logs@.len() == 0,
            !r.focus_logs,
            r.log_scroll == 0,
            r.started_at_ms == now_ms,
            r.status_message is None,
            !r.group_mode,
    {
        MonitorState {
            daemon_pid,
            pm_hint: None,
            links: Vec::new(),
            selected_index: 0,
            logs: Vec::new(),
            focus_logs: false,
            log_scroll: 0,
            started_at_ms: now_ms,
            group_mode: false,
            status_message: None,
        }
    }

    /// The link under the cursor.
    pub fn selected_link(&self) -> (r: Option<&LinkEntry>)
        ensures
            self.selected_index < self.links@.len() ==> r == Some(&self.links@[self.selected_index as int]),
            self.selected_index >= self.links@.len() ==> r is None,
    {
        if self.selected_index < self.links.len() {
            Some(&self.links[self.selected_index])
        } else {
            None
        }
    }

    /// Adds a line to the log, stamped `time`; the oldest line goes when
    /// there are more than `MAX_LOGS`.
    pub fn add_log(&mut self, time: &str, level: &str, eco: Option<String>, msg: String)
        requires
            old(self).wf(),
        ensures
            final(self).wf(),
            log_views(final(self).logs@) == capped(
                log_views(old(self).logs@).push(
                    LogView { time: time@, level: level@, ecosystem: opt_str(eco), message: msg@ },
                ),
            ),
            final(self).links@ == old(self).links@,
            final(self).selected_index == old(self).selected_index,
            final(self).log_scroll == old(self).log_scroll,
            final(self).focus_logs == old(self).focus_logs,
            final(self).status_message == old(self).status_message,
            final(self).pm_hint == old(self).pm_hint,
            final(self).daemon_pid == old(self).daemon_pid,
            final(self).started_at_ms == old(self).started_at_ms,
            final(self).group_mode == old(self).group_mode,
    {
        let ghost before = log_views(self.logs@);
        let item = LogItem { time: time.to_owned(), level: level.to_owned(), ecosystem: eco, message: msg };
        self.logs.push(item);
        assert(log_views(self.logs@) =~= before.push(self.logs@.last()@));
        if self.logs.len() > MAX_LOGS {
            let ghost pushed = log_views(self.logs@);
            self.logs.remove(0);
            assert(log_views(self.logs@) =~= pushed.drop_first());
        }
    }

    /// Sets the header's status message, at `now_ms`.
    pub fn set_status(&mut self, msg: String, now_ms: u64)
        ensures
            final(self).status_message == Some((msg, now_ms)),
            final(self).logs == old(self).logs,
            final(self).links == old(self).links,
            final(self).selected_index == old(self).selected_index,
            final(self).log_scroll == old(self).log_scroll,
            final(self).focus_logs == old(self).focus_logs,
            final(self).pm_hint == old(self).pm_hint,
            final(self).daemon_pid == old(self).daemon_pid,
            final(self).started_at_ms == old(self).started_at_ms,
            final(self).group_mode == old(self).group_mode,
    {
        self.status_message = Some((msg, now_ms));
    }

    /// Drops the status message once it is older than `STATUS_TTL_MS`.
    pub fn expire_status(&mut self, now_ms: u64)
        ensures
            match old(self).status_message {
                Some((_, at)) => if now_ms - at > STATUS_TTL_MS {
                    final(self).status_message is None
                } else {
                    final(self).status_message == old(self).status_message
                },
                None => final(self).status_message is None,
            },
            final(self).logs == old(self).logs,
            final(self).links == old(self).links,
            final(self).selected_index == old(self).selected_index,
            final(self).log_scroll == old(self).log_scroll,
            final(self).focus_logs == old(self).focus_logs,
            final(self).pm_hint == old(self).pm_hint,
            final(self).daemon_pid == old(self).daemon_pid,
            final(self).started_at_ms == old(self).started_at_ms,
            final(self).group_mode == old(self).group_mode,
    {
        let expired = match &self.status_message {
            Some((_, at)) => now_ms >= *at && now_ms - *at > STATUS_TTL_MS,
            None => false,
        };
        if expired {
            self.status_message = None;
        }
    }

    /// The index of the first link named `name`.
    fn find_named(&self, name: &str) -> (r: Option<usize>)
        ensures
            r matches Some(i) ==> first_named(link_views(self.links@), name@, 0) == Some(i as int)
                && i < self.links@.len(),
            r is None ==> first_named(link_views(self.links@), name@, 0) is None,
    {
        let ghost lv = link_views(self.links@);
        let mut i: usize = 0;
        while i < self.links.len()
            invariant
                i <= self.links@.len(),
                lv == link_views(self.links@),
                first_named(lv, name@, 0) == first_named(lv, name@, i as int),
            decreases self.links.len() - i,
        {
            assert(lv[i as int].package_name == self.links@[i as int].package_name@);
            if crate::text::chars_eq(&crate::text::to_chars(self.links[i].package_name.as_str()), &crate::text::to_chars(name)) {
                return Some(i);
            }
            i = i + 1;
        }
        None
    }

    /// Replaces link `i` by `f` applied to it.
    fn update_link(&mut self, i: usize, status: LinkSyncStatus, at: Option<String>, count: Option<u32>)
        requires
            i < old(self).links@.len(),
        ensures
            link_views(final(self).links@) == link_views(old(self).links@).update(
                i as int,
                LinkEntryView {
                    last_sync_status: status,
                    last_sync_at: match at {
                        Some(t) => Some(t@),
                        None => link_views(old(self).links@)[i as int].last_sync_at,
                    },
                    file_count: match count {
                        Some(c) => c,
                        None => link_views(old(self).links@)[i as int].file_count,
                    },
                    ..link_views(old(self).links@)[i as int]
                },
            ),
            final(self).links@.len() == old(self).links@.len(),
            final(self).logs == old(self).logs,
            final(self).selected_index == old(self).selected_index,
            final(self).log_scroll == old(self).log_scroll,
            final(self).focus_logs == old(self).focus_logs,
            final(self).status_message == old(self).status_message,
            final(self).pm_hint == old(self).pm_hint,
            final(self).daemon_pid == old(self).daemon_pid,
            final(self).started_at_ms == old(self).started_at_ms,
            final(self).group_mode == old(self).group_mode,
    {
        let ghost before = self.links@;
        let mut l = self.links.remove(i);
        l.last_sync_status = status;
        match at {
            Some(t) => {
                l.last_sync_at = Some(t);
            },
            None => {},
        }
        match count {
            Some(c) => {
                l.file_count = c;
            },
            None => {},
        }
        self.links.insert(i, l);
        assert(link_views(self.links@) =~= link_views(before).update(i as int, l@));
    }

    /// Applies a daemon event; log lines it adds are stamped `log_time`, and
    /// a finished sync is dated `now`.
    pub fn handle_daemon_event(&mut self, event: DaemonEvent, log_time: &str, now: &str)
        requires
            old(self).wf(),
        ensures
            final(self).wf(),
            final(self).focus_logs == old(self).focus_logs,
            final(self).status_message == old(self).status_message,
            final(self).daemon_pid == old(self).daemon_pid,
            final(self).started_at_ms == old(self).started_at_ms,
            final(self).group_mode == old(self).group_mode,
            match event {
                DaemonEvent::Snapshot { links, pm_install_hint } => {
                    &&& final(self).links@ == links@
                    &&& final(self).pm_hint == pm_install_hint
                    &&& final(self).selected_index == clamp_selection(
                        old(self).selected_index as int,
                        links@.len() as int,
                    )
                    &&& final(self).logs == old(self).logs
                    &&& final(self).log_scroll == old(self).log_scroll
                },
                DaemonEvent::LinkStatusChanged { package_name, status, last_synced_at } => {
                    &&& link_views(final(self).links@) == update_named(
                        link_views(old(self).links@),
                        package_name@,
                        status_update(status, opt_str(last_synced_at)),
                    )
                    &&& final(self).logs == old(self).logs
                    &&& final(self).pm_hint == old(self).pm_hint
                    &&& final(self).selected_index == old(self).selected_index
                    &&& final(self).log_scroll == old(self).log_scroll
                },
                DaemonEvent::SyncStarted { package_name, files_count } => {
                    &&& link_views(final(self).links@) == update_named(
                        link_views(old(self).links@),
                        package_name@,
                        |l: LinkEntryView| LinkEntryView { last_sync_status: LinkSyncStatus::Syncing, ..l },
                    )
                    &&& log_views(final(self).logs@) == capped(
                        log_views(old(self).logs@).push(
                            LogView {
                                time: log_time@,
                                level: "SYNC"@,
                                ecosystem: None,
                                message: package_name@ + " sync started ("@ + dec(files_count as nat)
                                    + " files)"@,
                            },
                        ),
                    )
                    &&& final(self).pm_hint == old(self).pm_hint
                    &&& final(self).selected_index == old(self).selected_index
                    &&& final(self).log_scroll == old(self).log_scroll
                },
                DaemonEvent::SyncCompleted { package_name, duration_ms, files_synced } => {
                    &&& link_views(final(self).links@) == update_named(
                        link_views(old(self).links@),
                        package_name@,
                        |l: LinkEntryView| LinkEntryView {
                            last_sync_status: LinkSyncStatus::Synced,
                            last_sync_at: Some(now@),
                            file_count: (files_synced % 0x1_0000_0000) as u32,
                            ..l
                        },
                    )
                    &&& log_views(final(self).logs@) == capped(
                        log_views(old(self).logs@).push(
                            LogView {
                                time: log_time@,
                                level: "DONE"@,
                                ecosystem: None,
                                message: package_name@ + " synced "@ + dec(files_synced as nat)
                                    + " files in "@ + dec(duration_ms as nat) + "ms"@,
                            },
                        ),
                    )
                    &&& final(self).pm_hint == old(self).pm_hint
                    &&& final(self).selected_index == old(self).selected_index
                    &&& final(self).log_scroll == old(self).log_scroll
                },
                DaemonEvent::SyncFailed { package_name, error } => {
                    &&& link_views(final(self).links@) == update_named(
                        link_views(old(self).links@),
                        package_name@,
                        |l: LinkEntryView| LinkEntryView { last_sync_status: LinkSyncStatus::Error, ..l },
                    )
                    &&& log_views(final(self).logs@) == capped(
                        log_views(old(self).logs@).push(
                            LogView {
                                time: log_time@,
                                level: "ERR"@,
                                ecosystem: None,
                                message: package_name@ + " sync error: "@ + error@,
                            },
                        ),
                    )
                    &&& final(self).pm_hint == old(self).pm_hint
                    &&& final(self).selected_index == old(self).selected_index
                    &&& final(self).log_scroll == old(self).log_scroll
                },
                DaemonEvent::LogMessage { level, ecosystem, message } => {
                    &&& final(self).links@ == old(self).links@
                    &&& log_views(final(self).logs@) == capped(
                        log_views(old(self).logs@).push(
                            LogView {
                                time: log_time@,
                                level: level@,
                                ecosystem: opt_str(ecosystem),
                                message: message@,
                            },
                        ),
                    )
                    &&& final(self).pm_hint == old(self).pm_hint
                    &&& final(self).selected_index == old(self).selected_index
                    &&& final(self).log_scroll == old(self).log_scroll
                },
            },
    {
        match event {
            DaemonEvent::Snapshot { links, pm_install_hint } => {
                self.links = links;
                self.pm_hint = pm_install_hint;
                if self.selected_index >= self.links.len() && self.links.len() > 0 {
                    self.selected_index = self.links.len() - 1;
                }
            },
            DaemonEvent::LinkStatusChanged { package_name, status, last_synced_at } => {
                let ghost at = opt_str(last_synced_at);
                let ghost before = link_views(self.links@);
                match self.find_named(package_name.as_str()) {
                    Some(i) => {
                        self.update_link(i, status, last_synced_at, None);
                        assert(link_views(self.links@) =~= before.update(
                            i as int,
                            status_update(status, at)(before[i as int]),
                        ));
                    },
                    None => {},
                }
            },
            DaemonEvent::SyncStarted { package_name, files_count } => {
                match self.find_named(package_name.as_str()) {
                    Some(i) => {
                        self.update_link(i, LinkSyncStatus::Syncing, None, None);
                    },
                    None => {},
                }
                let mut m: Vec<char> = Vec::new();
                push_str(&mut m, package_name.as_str());
                push_str(&mut m, " sync started (");
                push_decimal(&mut m, files_count);
                push_str(&mut m, " files)");
                self.add_log(log_time, "SYNC", None, from_chars(&m));
            },
            DaemonEvent::SyncCompleted { package_name, duration_ms, files_synced } => {
                match self.find_named(package_name.as_str()) {
                    Some(i) => {
                        let c = (files_synced % 0x1_0000_0000) as u32;
                        self.update_link(i, LinkSyncStatus::Synced, Some(now.to_owned()), Some(c));
                    },
                    None => {},
                }
                let mut m: Vec<char> = Vec::new();
                push_str(&mut m, package_name.as_str());
                push_str(&mut m, " synced ");
                push_decimal(&mut m, files_synced);
                push_str(&mut m, " files in ");
                push_decimal(&mut m, duration_ms);
                push_str(&mut m, "ms");
                self.add_log(log_time, "DONE", None, from_chars(&m));
            },
            DaemonEvent::SyncFailed { package_name, error } => {
                match self.find_named(package_name.as_str()) {
                    Some(i) => {
                        self.update_link(i, LinkSyncStatus::Error, None, None);
                    },
                    None => {},
                }
                let mut m: Vec<char> = Vec::new();
                push_str(&mut m, package_name.as_str());
                push_str(&mut m, " sync error: ");
                push_str(&mut m, error.as_str());
                self.add_log(log_time, "ERR", None, from_chars(&m));
            },
            DaemonEvent::LogMessage { level, ecosystem, message } => {
                self.add_log(log_time, level.as_str(), ecosystem, message);
            },
        }
    }

    /// Takes the links reloaded from the daemon, keeping the selection inside
    /// them.
    pub fn replace_links(&mut self, links: Vec<LinkEntry>)
        requires
            old(self).wf(),
        ensures
            final(self).wf(),
            final(self).links@ == links@,
            final(self).selected_index == clamp_selection(old(self).selected_index as int, links@.len() as int),
            final(self).logs == old(self).logs,
            final(self).log_scroll == old(self).log_scroll,
            final(self).focus_logs == old(self).focus_logs,
            final(self).status_message == old(self).status_message,
            final(self).pm_hint == old(self).pm_hint,
            final(self).daemon_pid == old(self).daemon_pid,
            final(self).started_at_ms == old(self).started_at_ms,
            final(self).group_mode == old(self).group_mode,
    {
        self.links = links;
        if self.selected_index >= self.links.len() && self.links.len() > 0 {
            self.selected_index = self.links.len() - 1;
        }
    }

    /// Reacts to a key pressed at `now_ms`; log lines it adds are stamped
    /// `log_time`. What the daemon has to do comes back as the action.
    pub fn handle_key(&mut self, key: MonitorKey, log_time: &str, now_ms: u64) -> (r: MonitorAction)
        requires
            old(self).wf(),
        ensures
            final(self).wf(),
            final(self).links@ == old(self).links@,
            final(self).pm_hint == old(self).pm_hint,
            final(self).daemon_pid == old(self).daemon_pid,
            final(self).started_at_ms == old(self).started_at_ms,
            final(self).group_mode == if key == MonitorKey::Char('g') { !old(self).group_mode } else { old(self).group_mode },
            ({
                let o = *old(self);
                let f = *final(self);
                let sel = o.selected_index as int;
                let has_sel = sel < o.links@.len();
                let pkg = o.links@[sel].package_name@;
                let eco = Some(eco_debug(o.links@[sel].ecosystem));
                match key {
                    MonitorKey::CtrlC | MonitorKey::Esc | MonitorKey::Char('q') => {
                        &&& r is Quit
                        &&& f.logs == o.logs && f.selected_index == o.selected_index
                        &&& f.log_scroll == o.log_scroll && f.focus_logs == o.focus_logs
                        &&& f.status_message == o.status_message
                    },
                    MonitorKey::Tab => {
                        &&& r is Nothing
                        &&& f.focus_logs == !o.focus_logs
                        &&& f.logs == o.logs && f.selected_index == o.selected_index
                        &&& f.log_scroll == o.log_scroll && f.status_message == o.status_message
                    },
                    MonitorKey::Up | MonitorKey::Char('k') => {
                        &&& r is Nothing
                        &&& f.log_scroll == if o.focus_logs { last_index(o.log_scroll as int) } else { o.log_scroll as int }
                        &&& f.selected_index == if !o.focus_logs && sel > 0 { sel - 1 } else { sel }
                        &&& f.logs == o.logs && f.focus_logs == o.focus_logs
                        &&& f.status_message == o.status_message
                    },
                    MonitorKey::Down | MonitorKey::Char('j') => {
                        &&& r is Nothing
                        &&& f.log_scroll == if o.focus_logs {
                            if o.log_scroll + 1 <= last_index(o.logs@.len() as int) {
                                o.log_scroll + 1
                            } else {
                                last_index(o.logs@.len() as int)
                            }
                        } else {
                            o.log_scroll as int
                        }
                        &&& f.selected_index == if !o.focus_logs && sel + 1 < o.links@.len() { sel + 1 } else { sel }
                        &&& f.logs == o.logs && f.focus_logs == o.focus_logs
                        &&& f.status_message == o.status_message
                    },
                    MonitorKey::Char('r') => {
                        &&& f.selected_index == o.selected_index && f.log_scroll == o.log_scroll
                        &&& f.focus_logs == o.focus_logs
                        &&& if has_sel {
                            &&& r matches MonitorAction::Reconcile(id) && id@ == o.links@[sel].id@
                            &&& log_views(f.logs@) == capped(log_views(o.logs@).push(LogView {
                                time: log_time@,
                                level: "CMD"@,
                                ecosystem: eco,
                                message: "Manual reconcile requested for "@ + pkg,
                            }))
                            &&& f.status_message matches Some((m, t)) && m@ == "Reconcile triggered for "@ + pkg && t == now_ms
                        } else {
                            r is Nothing && f.logs == o.logs && f.status_message == o.status_message
                        }
                    },
                    MonitorKey::Char(' ') => {
                        &&& f.selected_index == o.selected_index && f.log_scroll == o.log_scroll
                        &&& f.focus_logs == o.focus_logs && f.logs == o.logs
                        &&& if has_sel {
                            &&& r matches MonitorAction::TogglePause(p) && p@ == pkg
                            &&& f.status_message matches Some((m, t)) && m@ == "Toggled pause for "@ + pkg && t == now_ms
                        } else {
                            r is Nothing && f.status_message == o.status_message
                        }
                    },
                    MonitorKey::Char('u') => {
                        &&& f.selected_index == o.selected_index && f.log_scroll == o.log_scroll
                        &&& f.focus_logs == o.focus_logs
                        &&& if has_sel {
                            &&& r matches MonitorAction::Unlink(p) && p@ == pkg
                            &&& log_views(f.logs@) == capped(log_views(o.logs@).push(LogView {
                                time: log_time@,
                                level: "CMD"@,
                                ecosystem: eco,
                                message: "Unlinking "@ + pkg,
                            }))
                            &&& f.status_message matches Some((m, t)) && m@ == "Unlinked "@ + pkg && t == now_ms
                        } else {
                            r is Nothing && f.logs == o.logs && f.status_message == o.status_message
                        }
                    },
                    MonitorKey::Char('g') => {
                        &&& r is Nothing
                        &&& f.group_mode == !o.group_mode
                        &&& f.logs == o.logs && f.selected_index == o.selected_index
                        &&& f.log_scroll == o.log_scroll && f.focus_logs == o.focus_logs
                        &&& f.status_message == o.status_message
                    },
                    MonitorKey::Char('c') => {
                        &&& r is Nothing
                        &&& f.logs@.len() == 0 && f.log_scroll == 0
                        &&& f.selected_index == o.selected_index && f.focus_logs == o.focus_logs
                        &&& f.status_message matches Some((m, t)) && m@ == "Logs cleared"@ && t == now_ms
                    },
                    _ => {
                        &&& r is Nothing
                        &&& f.logs == o.logs && f.selected_index == o.selected_index
                        &&& f.log_scroll == o.log_scroll && f.focus_logs == o.focus_logs
                        &&& f.status_message == o.status_message
                    },
                }
            }),
    {
        match key {
            MonitorKey::CtrlC | MonitorKey::Esc | MonitorKey::Char('q') => MonitorAction::Quit,
            MonitorKey::Tab => {
                self.focus_logs = !self.focus_logs;
                MonitorAction::Nothing
            },
            MonitorKey::Up | MonitorKey::Char('k') => {
                if self.focus_logs {
                    if self.log_scroll > 0 {
                        self.log_scroll = self.log_scroll - 1;
                    }
                } else if self.selected_index > 0 {
                    self.selected_index = self.selected_index - 1;
                }
                MonitorAction::Nothing
            },
            MonitorKey::Down | MonitorKey::Char('j') => {
                if self.focus_logs {
                    let last = if self.logs.len() > 0 { self.logs.len() - 1 } else { 0 };
                    self.log_scroll = if self.log_scroll + 1 <= last { self.log_scroll + 1 } else { last };
                } else if self.links.len() > 0 && self.selected_index + 1 < self.links.len() {
                    self.selected_index = self.selected_index + 1;
                }
                MonitorAction::Nothing
            },
            MonitorKey::Char('r') => {
                if self.selected_index < self.links.len() {
                    let pkg = self.links[self.selected_index].package_name.clone();
                    let eco = eco_debug_str(self.links[self.selected_index].ecosystem).to_owned();
                    let mut m: Vec<char> = Vec::new();
                    push_str(&mut m, "Manual reconcile requested for ");
                    push_str(&mut m, pkg.as_str());
                    self.add_log(log_time, "CMD", Some(eco), from_chars(&m));
                    let mut st: Vec<char> = Vec::new();
                    push_str(&mut st, "Reconcile triggered for ");
                    push_str(&mut st, pkg.as_str());
                    self.set_status(from_chars(&st), now_ms);
                    MonitorAction::Reconcile(self.links[self.selected_index].id.clone())
                } else {
                    MonitorAction::Nothing
                }
            },
            MonitorKey::Char(' ') => {
                if self.selected_index < self.links.len() {
                    let pkg = self.links[self.selected_index].package_name.clone();
                    let mut st: Vec<char> = Vec::new();
                    push_str(&mut st, "Toggled pause for ");
                    push_str(&mut st, pkg.as_str());
                    self.set_status(from_chars(&st), now_ms);
                    MonitorAction::TogglePause(pkg)
                } else {
                    MonitorAction::Nothing
                }
            },
            MonitorKey::Char('u') => {
                if self.selected_index < self.links.len() {
                    let pkg = self.links[self.selected_index].package_name.clone();
                    let eco = eco_debug_str(self.links[self.selected_index].ecosystem).to_owned();
                    let mut m: Vec<char> = Vec::new();
                    push_str(&mut m, "Unlinking ");
                    push_str(&mut m, pkg.as_str());
                    self.add_log(log_time, "CMD", Some(eco), from_chars(&m));
                    let mut st: Vec<char> = Vec::new();
                    push_str(&mut st, "Unlinked ");
                    push_str(&mut st, pkg.as_str());
                    self.set_status(from_chars(&st), now_ms);
                    MonitorAction::Unlink(pkg)
                } else {
                    MonitorAction::Nothing
                }
            },
            MonitorKey::Char('g') => {
                self.group_mode = !self.group_mode;
                MonitorAction::Nothing
            },
            MonitorKey::Char('c') => {
                self.logs = Vec::new();
                self.log_scroll = 0;
                self.set_status("Logs cleared".to_owned(), now_ms);
                MonitorAction::Nothing
            },
            _ => MonitorAction::Nothing,
        }
    }

    /// Where the log panel starts, for a panel that shows `visible` lines:
    /// at the scroll position (kept inside the log) while the log has the
    /// focus, else at the newest lines.
    pub fn log_window_start(&self, visible: usize) -> (r: usize)
        ensures
            r == if self.logs@.len() > visible {
                if self.focus_logs {
                    if self.log_scroll <= self.logs@.len() - visible {
                        self.log_scroll as int
                    } else {
                        self.logs@.len() - visible
                    }
                } else {
                    self.logs@.len() - visible
                }
            } else {
                0
            },
            r <= self.logs@.len(),
    {
        let n = self.logs.len();
        if n > visible {
            if self.focus_logs {
                if self.log_scroll <= n - visible {
                    self.log_scroll
                } else {
                    n - visible
                }
            } else {
                n - visible
            }
        } else {
            0
        }
    }

    /// The time since the monitor started, as `HH:MM:SS`.
    pub fn uptime_str(&self, now_ms: u64) -> (r: String)
        ensures
            r@ == hms(if now_ms >= self.started_at_ms {
                ((now_ms - self.started_at_ms) / 1000) as nat
            } else {
                0
            }),
    {
        let s: u64 = if now_ms >= self.started_at_ms {
            (now_ms - self.started_at_ms) / 1000
        } else {
            0
        };
        let mut out: Vec<char> = Vec::new();
        push_two_digits(&mut out, s / 3600);
        out.push(':');
        push_two_digits(&mut out, (s % 3600) / 60);
        out.push(':');
        push_two_digits(&mut out, s % 60);
        assert(out@ =~= hms(s as nat));
        from_chars(&out)
    }
}

/// How the log panel colours a line, by its level.
#[derive(Clone, Copy, Debug, PartialEq, Eq, Structural)]
pub enum LevelClass {
    Error,
    Done,
    Sync,
    Hint,
    Command,
    Plain,
}

/// The class of a log level: `ERR` and `ERROR` are errors, `DONE`, `SYNC`,
/// `HINT` and `CMD` their own, any other plain.
pub open spec fn level_class_of(level: Seq<char>) -> LevelClass {
    if level == "ERR"@ || level == "ERROR"@ {
        LevelClass::Error
    } else if level == "DONE"@ {
        LevelClass::Done
    } else if level == "SYNC"@ {
        LevelClass::Sync
    } else if level == "HINT"@ {
        LevelClass::Hint
    } else if level == "CMD"@ {
        LevelClass::Command
    } else {
        LevelClass::Plain
    }
}

/// The class of a log level.
pub fn level_class(level: &str) -> (r: LevelClass)
    ensures
        r == level_class_of(level@),
{
    if crate::cli::str_eq(level, "ERR") || crate::cli::str_eq(level, "ERROR") {
        LevelClass::Error
    } else if crate::cli::str_eq(level, "DONE") {
        LevelClass::Done
    } else if crate::cli::str_eq(level, "SYNC") {
        LevelClass::Sync
    } else if crate::cli::str_eq(level, "HINT") {
        LevelClass::Hint
    } else if crate::cli::str_eq(level, "CMD") {
        LevelClass::Command
    } else {
        LevelClass::Plain
    }
}

/// The daemon as the header names it: `PID <pid>`, or `Running`.
pub open spec fn pid_label(pid: Option<u32>) -> Seq<char> {
    match pid {
        Some(p) => "PID "@ + dec(p as nat),
        None => "Running"@,
    }
}

/// The daemon as the header names it.
pub fn pid_text(pid: Option<u32>) -> (r: String)
    ensures
        r@ == pid_label(pid),
{
    match pid {
        Some(p) => {
            let mut v: Vec<char> = Vec::new();
            push_str(&mut v, "PID ");
            push_decimal(&mut v, p as u64);
            from_chars(&v)
        },
        None => "Running".to_owned(),
    }
}

/// Adding a line keeps the log within `MAX_LOGS` lines, the new line last.
pub proof fn lemma_log_capped(logs: Seq<LogView>, line: LogView)
    requires
        logs.len() <= MAX_LOGS,
    ensures
        capped(logs.push(line)).len() <= MAX_LOGS,
        capped(logs.push(line)).last() == line,
        logs.len() < MAX_LOGS ==> capped(logs.push(line)) == logs.push(line),
{
}

} // verus!
