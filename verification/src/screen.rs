//! The text of the screens: what the live monitor's header, link rows,
//! inspector, log panel and footer say, and what each step of the link
//! wizard shows. The caller lays the lines out and colours them (see
//! `level_class`).

use vstd::prelude::*;
use crate::cli::{
    branch_text, consumer_label, consumers_text, eco_badge, eco_label, group_by_package, group_views, groups_of,
    lemma_indices_range, names_of, status_badge, status_badge_text,
};
use crate::fs::str_views;
use crate::manifest::opt_str;
use crate::model::{ErrView, IsolationMode, LinkEntry, LinkEntryView, LinkMode, LinkSyncStatus, LinkdError};
use crate::monitor::{hms, link_views, log_views, pid_label, pid_text, LogItem, LogView, MonitorState};
use crate::text::{dec, from_chars, push_decimal, push_str};
use crate::wizard::{step_number, WizardState, WizardStep, CUSTOM_LINK_TYPE};

verus! {

/// The list of links when there is none.
pub const NO_LINKS_TEXT: &'static str = "  No active links. Run `linkd link` to add a package.";

/// The inspector when no link is selected.
pub const NO_SELECTION_TEXT: &'static str = "Select a link to inspect details";

/// The log panel before the first line arrives.
pub const NO_LOGS_TEXT: &'static str = "Waiting for engine events...";

/// The key bindings that the footer lists.
pub const FOOTER_TEXT: &'static str = "[↑/↓/j/k] Nav  [r] Reconcile  [Space] Pause/Resume  [u] Unlink  [c] Clear  [Tab] Switch Focus  [q/Esc] Detach";

/// The message that an error carries; an I/O error is prefixed with its
/// path.
pub open spec fn err_text(e: ErrView) -> Seq<char> {
    match e {
        ErrView::PackageNotFound(m) => m,
        ErrView::NpmPackFailed(m) => m,
        ErrView::PnpmGlobalStoreForbidden(m) => m,
        ErrView::Io(p, m) => p + ": "@ + m,
        ErrView::Other(m) => m,
    }
}

/// The message that an error carries.
pub fn error_message(e: &LinkdError) -> (r: String)
    ensures
        r@ == err_text(e@),
{
    match e {
        LinkdError::PackageNotFound(m) => m.clone(),
        LinkdError::NpmPackFailed(m) => m.clone(),
        LinkdError::PnpmGlobalStoreForbidden(m) => m.clone(),
        LinkdError::Io { path, message } => {
            let mut v: Vec<char> = Vec::new();
            push_str(&mut v, path.as_str());
            push_str(&mut v, ": ");
            push_str(&mut v, message.as_str());
            from_chars(&v)
        },
        LinkdError::Other(m) => m.clone(),
    }
}

/// `format!("{:?}", mode)`.
pub open spec fn mode_debug(m: LinkMode) -> Seq<char> {
    match m {
        LinkMode::PackageManager => "PackageManager"@,
        LinkMode::CustomPath => "CustomPath"@,
    }
}

fn mode_debug_str(m: LinkMode) -> (r: &'static str)
    ensures
        r@ == mode_debug(m),
{
    match m {
        LinkMode::PackageManager => "PackageManager",
        LinkMode::CustomPath => "CustomPath",
    }
}

/// `format!("{:?}", isolation)`.
pub open spec fn isolation_debug(m: IsolationMode) -> Seq<char> {
    match m {
        IsolationMode::ProjectLocal => "ProjectLocal"@,
        IsolationMode::Shadow => "Shadow"@,
    }
}

fn isolation_debug_str(m: IsolationMode) -> (r: &'static str)
    ensures
        r@ == isolation_debug(m),
{
    match m {
        IsolationMode::ProjectLocal => "ProjectLocal",
        IsolationMode::Shadow => "Shadow",
    }
}

/// `format!("{:?}", status)`.
pub open spec fn status_debug(s: LinkSyncStatus) -> Seq<char> {
    match s {
        LinkSyncStatus::Pending => "Pending"@,
        LinkSyncStatus::Syncing => "Syncing"@,
        LinkSyncStatus::Synced => "Synced"@,
        LinkSyncStatus::Error => "Error"@,
        LinkSyncStatus::Paused => "Paused"@,
    }
}

fn status_debug_str(s: LinkSyncStatus) -> (r: &'static str)
    ensures
        r@ == status_debug(s),
{
    match s {
        LinkSyncStatus::Pending => "Pending",
        LinkSyncStatus::Syncing => "Syncing",
        LinkSyncStatus::Synced => "Synced",
        LinkSyncStatus::Error => "Error",
        LinkSyncStatus::Paused => "Paused",
    }
}

/// The header: the daemon's pid and the uptime, then the install hint of
/// the package manager and the status message where there are any.
pub open spec fn header_line(
    pid: Option<u32>,
    uptime: Seq<char>,
    pm_hint: Option<Seq<char>>,
    status: Option<Seq<char>>,
) -> Seq<char> {
    let base = " linkd live monitor "@ + "─ [Daemon: "@ + "Active"@ + " · "@ + pid_label(pid) + " · Up "@
        + uptime + "] "@;
    let with_hint = match pm_hint {
        Some(h) => base + " [PM: "@ + h + "] "@,
        None => base,
    };
    match status {
        Some(s) => with_hint + " ["@ + s + "] "@,
        None => with_hint,
    }
}

/// `" <label> (<n>) "`, the title of a panel that counts its lines.
pub open spec fn counted_title(label: Seq<char>, n: nat) -> Seq<char> {
    " "@ + label + " ("@ + dec(n) + ") "@
}

fn counted_title_exec(label: &str, n: usize) -> (r: String)
    ensures
        r@ == counted_title(label@, n as nat),
{
    let mut v: Vec<char> = Vec::new();
    push_str(&mut v, " ");
    push_str(&mut v, label);
    push_str(&mut v, " (");
    push_decimal(&mut v, n as u64);
    push_str(&mut v, ") ");
    from_chars(&v)
}

/// The row of a link in the list: a marker for the selected one, its name,
/// its ecosystem and its sync state.
pub open spec fn link_row(l: LinkEntryView, selected: bool) -> Seq<char> {
    (if selected {
        "> "@
    } else {
        "  "@
    }) + l.package_name + " "@ + eco_badge(l.ecosystem) + " "@ + status_badge_text(l.last_sync_status)
}

/// The rows of the list of links, `sel` the selected one.
pub open spec fn link_rows_of(links: Seq<LinkEntryView>, sel: int) -> Seq<Seq<char>> {
    if links.len() == 0 {
        seq![NO_LINKS_TEXT@]
    } else {
        Seq::new(links.len(), |i: int| link_row(links[i], i == sel))
    }
}

fn link_row_text(l: &LinkEntry, selected: bool) -> (r: String)
    ensures
        r@ == link_row(l@, selected),
{
    let mut v: Vec<char> = Vec::new();
    push_str(&mut v, if selected { "> " } else { "  " });
    push_str(&mut v, l.package_name.as_str());
    push_str(&mut v, " ");
    push_str(&mut v, eco_label(l.ecosystem));
    push_str(&mut v, " ");
    push_str(&mut v, status_badge(l.last_sync_status));
    from_chars(&v)
}

/// What the inspector shows of a link. Its time of last sync is shown as
/// the caller formatted it.
pub open spec fn inspector_of(link: Option<LinkEntryView>) -> Seq<Seq<char>> {
    match link {
        None => seq![NO_SELECTION_TEXT@],
        Some(l) => {
            let base = seq![
                "Package:  "@ + l.package_name,
                "Source:   "@ + l.source_path,
                "Target:   "@ + l.sync_target,
                "Strategy: "@ + l.strategy + "  · Mode: "@ + mode_debug(l.link_mode) + "  · Isolation: "@
                    + isolation_debug(l.isolation_mode),
                "Files:    "@ + dec(l.file_count as nat) + "  · Status: "@ + status_debug(
                    l.last_sync_status,
                ),
            ];
            match l.last_sync_at {
                Some(t) => base.push("Last Sync: "@ + t),
                None => base,
            }
        },
    }
}

/// The selected link, if the selection lies inside the list.
pub open spec fn selected_of(links: Seq<LinkEntryView>, sel: int) -> Option<LinkEntryView> {
    if 0 <= sel < links.len() {
        Some(links[sel])
    } else {
        None
    }
}

fn concat2(a: &str, b: &str) -> (r: String)
    ensures
        r@ == a@ + b@,
{
    let mut v: Vec<char> = Vec::new();
    push_str(&mut v, a);
    push_str(&mut v, b);
    from_chars(&v)
}

fn inspector_text(l: &LinkEntry) -> (r: Vec<String>)
    ensures
        str_views(r@) == inspector_of(Some(l@)),
{
    let mut r: Vec<String> = Vec::new();
    r.push(concat2("Package:  ", l.package_name.as_str()));
    r.push(concat2("Source:   ", l.source_path.as_str()));
    r.push(concat2("Target:   ", l.sync_target.as_str()));
    let mut v: Vec<char> = Vec::new();
    push_str(&mut v, "Strategy: ");
    push_str(&mut v, l.strategy.as_str());
    push_str(&mut v, "  · Mode: ");
    push_str(&mut v, mode_debug_str(l.link_mode));
    push_str(&mut v, "  · Isolation: ");
    push_str(&mut v, isolation_debug_str(l.isolation_mode));
    r.push(from_chars(&v));
    let mut w: Vec<char> = Vec::new();
    push_str(&mut w, "Files:    ");
    push_decimal(&mut w, l.file_count as u64);
    push_str(&mut w, "  · Status: ");
    push_str(&mut w, status_debug_str(l.last_sync_status));
    r.push(from_chars(&w));
    match &l.last_sync_at {
        Some(t) => {
            r.push(concat2("Last Sync: ", t.as_str()));
        },
        None => {},
    }
    assert(str_views(r@) =~= inspector_of(Some(l@)));
    r
}

/// A line of the log panel: time, level, ecosystem where there is one, and
/// message.
pub open spec fn log_line(l: LogView) -> Seq<char> {
    l.time + " ["@ + l.level + "]"@ + match l.ecosystem {
        Some(e) => " ["@ + e + "]"@,
        None => seq![],
    } + " "@ + l.message
}

fn log_line_text(l: &LogItem) -> (r: String)
    ensures
        r@ == log_line(l@),
{
    let mut v: Vec<char> = Vec::new();
    push_str(&mut v, l.time.as_str());
    push_str(&mut v, " [");
    push_str(&mut v, l.level.as_str());
    push_str(&mut v, "]");
    match &l.ecosystem {
        Some(e) => {
            push_str(&mut v, " [");
            push_str(&mut v, e.as_str());
            push_str(&mut v, "]");
        },
        None => {},
    }
    push_str(&mut v, " ");
    push_str(&mut v, l.message.as_str());
    assert(v@ =~= log_line(l@));
    from_chars(&v)
}

/// The first log line that a panel of `visible` lines shows: the scroll
/// position, kept inside the log, while the log has the focus; else the
/// newest lines.
pub open spec fn window_start(n: int, visible: int, focus: bool, scroll: int) -> int {
    if n > visible {
        if focus {
            if scroll <= n - visible {
                scroll
            } else {
                n - visible
            }
        } else {
            n - visible
        }
    } else {
        0
    }
}

/// The lines of a log panel that shows `visible` lines from `start` on.
pub open spec fn log_lines_of(logs: Seq<LogView>, start: int, visible: int) -> Seq<Seq<char>> {
    let end = if start + visible < logs.len() {
        start + visible
    } else {
        logs.len() as int
    };
    if end <= start {
        seq![NO_LOGS_TEXT@]
    } else {
        Seq::new((end - start) as nat, |k: int| log_line(logs[start + k]))
    }
}

fn flat_rows(links: &Vec<LinkEntry>, sel: usize) -> (r: Vec<String>)
    ensures
        str_views(r@) == link_rows_of(link_views(links@), sel as int),
{
    let ghost lv = link_views(links@);
    let mut r: Vec<String> = Vec::new();
    if links.len() == 0 {
        r.push(NO_LINKS_TEXT.to_owned());
        assert(str_views(r@) =~= seq![NO_LINKS_TEXT@]);
        return r;
    }
    let mut i: usize = 0;
    while i < links.len()
        invariant
            i <= links@.len(),
            lv == link_views(links@),
            str_views(r@) =~= Seq::new(i as nat, |k: int| link_row(lv[k], k == sel)),
        decreases links@.len() - i,
    {
        let row = link_row_text(&links[i], i == sel);
        let ghost prev = r@;
        r.push(row);
        assert(str_views(r@) =~= str_views(prev).push(row@));
        i = i + 1;
    }
    r
}

/// A consumer of a package in the grouped list of links: a marker when its
/// link is selected, the tree branch, the consumer and the sync state.
pub open spec fn member_row(l: LinkEntryView, selected: bool, last: bool) -> Seq<char> {
    (if selected {
        "> "@
    } else {
        "  "@
    }) + "  "@ + branch_text(last) + " "@ + l.consumer_root + " "@ + status_badge_text(l.last_sync_status)
}

/// The block of one package in the grouped list: its name, the ecosystem of
/// its first link and its number of consumers, then each consumer.
pub open spec fn package_block(links: Seq<LinkEntryView>, sel: int, name: Seq<char>, idx: Seq<int>) -> Seq<Seq<char>> {
    seq!["  📦 "@ + name + " "@ + eco_badge(links[idx[0]].ecosystem) + " ("@ + consumers_text(idx.len()) + ")"@]
        + Seq::new(idx.len(), |k: int| member_row(links[idx[k]], idx[k] == sel, k + 1 == idx.len()))
}

/// The rows of the grouped list of links, grouped as `g`.
pub open spec fn grouped_rows_of(links: Seq<LinkEntryView>, sel: int, g: Seq<(Seq<char>, Seq<int>)>) -> Seq<Seq<char>> {
    if links.len() == 0 {
        seq![NO_LINKS_TEXT@]
    } else {
        Seq::new(g.len(), |k: int| package_block(links, sel, g[k].0, g[k].1)).flatten()
    }
}

fn member_row_text(l: &LinkEntry, selected: bool, last: bool) -> (r: String)
    ensures
        r@ == member_row(l@, selected, last),
{
    let mut v: Vec<char> = Vec::new();
    push_str(&mut v, if selected { "> " } else { "  " });
    push_str(&mut v, "  ");
    push_str(&mut v, if last { "└──" } else { "├──" });
    push_str(&mut v, " ");
    push_str(&mut v, l.consumer_root.as_str());
    push_str(&mut v, " ");
    push_str(&mut v, status_badge(l.last_sync_status));
    from_chars(&v)
}

fn push_package_block(r: &mut Vec<String>, links: &Vec<LinkEntry>, sel: usize, name: &String, idx: &Vec<usize>)
    requires
        idx@.len() > 0,
        forall|k: int| 0 <= k < idx@.len() ==> idx@[k] < links@.len(),
    ensures
        str_views(final(r)@) == str_views(old(r)@) + package_block(
            link_views(links@),
            sel as int,
            name@,
            idx@.map_values(|i: usize| i as int),
        ),
{
    let ghost lv = link_views(links@);
    let ghost iv = idx@.map_values(|i: usize| i as int);
    let ghost start = str_views(r@);
    let mut h: Vec<char> = Vec::new();
    push_str(&mut h, "  📦 ");
    push_str(&mut h, name.as_str());
    push_str(&mut h, " ");
    push_str(&mut h, eco_label(links[idx[0]].ecosystem));
    push_str(&mut h, " (");
    let c = consumer_label(idx.len() as u64);
    push_str(&mut h, c.as_str());
    push_str(&mut h, ")");
    r.push(from_chars(&h));
    let ghost head = str_views(r@);
    let mut k: usize = 0;
    while k < idx.len()
        invariant
            k <= idx@.len(),
            lv == link_views(links@),
            iv == idx@.map_values(|i: usize| i as int),
            forall|m: int| 0 <= m < idx@.len() ==> idx@[m] < links@.len(),
            str_views(r@) =~= head + Seq::new(k as nat, |m: int| member_row(lv[iv[m]], iv[m] == sel, m + 1 == iv.len())),
        decreases idx.len() - k,
    {
        let line = member_row_text(&links[idx[k]], idx[k] == sel, k + 1 == idx.len());
        let ghost prev = str_views(r@);
        r.push(line);
        assert(str_views(r@) =~= prev.push(line@));
        k = k + 1;
    }
    assert(iv.len() == idx@.len());
    assert(str_views(r@) =~= start + package_block(lv, sel as int, name@, iv));
}

fn grouped_rows(links: &Vec<LinkEntry>, sel: usize) -> (r: Vec<String>)
    ensures
        exists|g: Seq<(Seq<char>, Seq<int>)>|
            groups_of(g, names_of(links@), links@.len() as int) && str_views(r@) == grouped_rows_of(
                link_views(links@),
                sel as int,
                g,
            ),
{
    let groups = group_by_package(links);
    let ghost g = group_views(groups@);
    let ghost lv = link_views(links@);
    let ghost names = names_of(links@);
    let mut r: Vec<String> = Vec::new();
    if links.len() == 0 {
        r.push(NO_LINKS_TEXT.to_owned());
        assert(str_views(r@) =~= grouped_rows_of(lv, sel as int, g));
        assert(groups_of(g, names, links@.len() as int) && str_views(r@) == grouped_rows_of(lv, sel as int, g));
        return r;
    }
    assert(Seq::new(0, |k: int| package_block(lv, sel as int, g[k].0, g[k].1)) =~= Seq::<Seq<Seq<char>>>::empty());
    let mut i: usize = 0;
    while i < groups.len()
        invariant
            i <= groups@.len(),
            g == group_views(groups@),
            lv == link_views(links@),
            names == names_of(links@),
            groups_of(g, names, links@.len() as int),
            str_views(r@) == Seq::new(i as nat, |k: int| package_block(lv, sel as int, g[k].0, g[k].1)).flatten(),
        decreases groups.len() - i,
    {
        proof {
            lemma_indices_range(names, g[i as int].0, links@.len() as int);
            assert(g[i as int].1 == groups@[i as int].1@.map_values(|j: usize| j as int));
            assert forall|k: int| 0 <= k < groups@[i as int].1@.len() implies groups@[i as int].1@[k] < links@.len() by {
                assert(g[i as int].1[k] == groups@[i as int].1@[k] as int);
            }
        }
        push_package_block(&mut r, links, sel, &groups[i].0, &groups[i].1);
        proof {
            let blocks = Seq::new(i as nat, |k: int| package_block(lv, sel as int, g[k].0, g[k].1));
            let next = Seq::new((i + 1) as nat, |k: int| package_block(lv, sel as int, g[k].0, g[k].1));
            assert(next =~= blocks.push(package_block(lv, sel as int, g[i as int].0, g[i as int].1)));
            blocks.lemma_flatten_push(package_block(lv, sel as int, g[i as int].0, g[i as int].1));
            assert(g[i as int].0 == groups@[i as int].0@);
        }
        i = i + 1;
    }
    assert(Seq::new(groups@.len(), |k: int| package_block(lv, sel as int, g[k].0, g[k].1)) =~= Seq::new(
        g.len(),
        |k: int| package_block(lv, sel as int, g[k].0, g[k].1),
    ));
    assert(groups_of(g, names, links@.len() as int) && str_views(r@) == grouped_rows_of(lv, sel as int, g));
    r
}

impl MonitorState {
    /// The header line, at `now_ms`.
    pub fn header_text(&self, now_ms: u64) -> (r: String)
        ensures
            r@ == header_line(
                self.daemon_pid,
                hms(if now_ms >= self.started_at_ms {
                    ((now_ms - self.started_at_ms) / 1000) as nat
                } else {
                    0
                }),
                opt_str(self.pm_hint),
                match self.status_message {
                    Some(m) => Some(m.0@),
                    None => None,
                },
            ),
    {
        let mut v: Vec<char> = Vec::new();
        push_str(&mut v, " linkd live monitor ");
        push_str(&mut v, "─ [Daemon: ");
        push_str(&mut v, "Active");
        push_str(&mut v, " · ");
        let pid = pid_text(self.daemon_pid);
        push_str(&mut v, pid.as_str());
        push_str(&mut v, " · Up ");
        let up = self.uptime_str(now_ms);
        push_str(&mut v, up.as_str());
        push_str(&mut v, "] ");
        match &self.pm_hint {
            Some(h) => {
                push_str(&mut v, " [PM: ");
                push_str(&mut v, h.as_str());
                push_str(&mut v, "] ");
            },
            None => {},
        }
        match &self.status_message {
            Some(m) => {
                push_str(&mut v, " [");
                push_str(&mut v, m.0.as_str());
                push_str(&mut v, "] ");
            },
            None => {},
        }
        from_chars(&v)
    }

    /// The title of the list of links.
    pub fn links_title(&self) -> (r: String)
        ensures
            r@ == counted_title("Active Links"@, self.links@.len()),
    {
        counted_title_exec("Active Links", self.links.len())
    }

    /// The rows of the list of links: one per link, or, in group mode, one
    /// block per package (in increasing order of names) with its consumers
    /// below it in the order of the links.
    pub fn link_rows(&self) -> (r: Vec<String>)
        ensures
            !self.group_mode ==> str_views(r@) == link_rows_of(link_views(self.links@), self.selected_index as int),
            self.group_mode ==> exists|g: Seq<(Seq<char>, Seq<int>)>|
                groups_of(g, names_of(self.links@), self.links@.len() as int) && str_views(r@)
                    == grouped_rows_of(link_views(self.links@), self.selected_index as int, g),
    {
        if self.group_mode {
            grouped_rows(&self.links, self.selected_index)
        } else {
            flat_rows(&self.links, self.selected_index)
        }
    }

    /// What the inspector shows of the selected link.
    pub fn inspector_lines(&self) -> (r: Vec<String>)
        ensures
            str_views(r@) == inspector_of(selected_of(link_views(self.links@), self.selected_index as int)),
    {
        match self.selected_link() {
            Some(l) => inspector_text(l),
            None => {
                let mut r: Vec<String> = Vec::new();
                r.push(NO_SELECTION_TEXT.to_owned());
                assert(str_views(r@) =~= seq![NO_SELECTION_TEXT@]);
                r
            },
        }
    }

    /// The title of the log panel.
    pub fn logs_title(&self) -> (r: String)
        ensures
            r@ == counted_title("Live Sync & Engine Logs"@, self.logs@.len()),
    {
        counted_title_exec("Live Sync & Engine Logs", self.logs.len())
    }

    /// The lines of a log panel that shows `visible` lines.
    pub fn log_lines(&self, visible: usize) -> (r: Vec<String>)
        ensures
            str_views(r@) == log_lines_of(
                log_views(self.logs@),
                window_start(self.logs@.len() as int, visible as int, self.focus_logs, self.log_scroll as int),
                visible as int,
            ),
    {
        let ghost logs = log_views(self.logs@);
        let start = self.log_window_start(visible);
        let n = self.logs.len();
        let end = if visible <= n - start {
            start + visible
        } else {
            n
        };
        let mut r: Vec<String> = Vec::new();
        if end <= start {
            r.push(NO_LOGS_TEXT.to_owned());
            assert(str_views(r@) =~= seq![NO_LOGS_TEXT@]);
            return r;
        }
        let mut i: usize = start;
        while i < end
            invariant
                start <= i <= end <= self.logs@.len(),
                logs == log_views(self.logs@),
                str_views(r@) =~= Seq::new((i - start) as nat, |k: int| log_line(logs[start + k])),
            decreases end - i,
        {
            let line = log_line_text(&self.logs[i]);
            let ghost prev = r@;
            r.push(line);
            assert(str_views(r@) =~= str_views(prev).push(line@));
            i = i + 1;
        }
        r
    }
}

/// The footer of the wizard.
pub const WIZARD_FOOTER_TEXT: &'static str = " Ctrl+C cancel · Left back ";

/// The label of link type `i` in the wizard's first step.
pub open spec fn type_label(i: int) -> Seq<char> {
    if i == 0 {
        "npm package"@
    } else if i == 1 {
        "composer package"@
    } else {
        "custom path"@
    }
}

/// The line of link type `i`, marked when it is the chosen one.
pub open spec fn type_choice(i: int, chosen: int) -> Seq<char> {
    (if i == chosen {
        "> "@
    } else {
        "  "@
    }) + type_label(i)
}

/// The name of the field that a step edits.
pub open spec fn field_label(step: WizardStep) -> Seq<char> {
    match step {
        WizardStep::Source => "Source"@,
        WizardStep::Consumer => "Consumer"@,
        WizardStep::Target => "Target"@,
        _ => seq![],
    }
}

/// The title of the wizard at `step`.
pub open spec fn wizard_title(step: WizardStep) -> Seq<char> {
    " linkd wizard — step "@ + dec(step_number(step) as nat) + "/5 "@
}

/// What the current step of the wizard shows below the title.
pub open spec fn step_body(s: WizardState) -> Seq<Seq<char>> {
    match s.step {
        WizardStep::LinkType => seq![
            type_choice(0, s.link_type as int),
            type_choice(1, s.link_type as int),
            type_choice(2, s.link_type as int),
            "↑/↓ select · Enter next · Esc cancel"@,
        ],
        WizardStep::Confirm => seq!["Source:   "@ + s.source@, "Consumer: "@ + s.consumer@] + (if s.link_type
            == CUSTOM_LINK_TYPE {
            seq!["Target:   "@ + s.target@]
        } else {
            seq![]
        }) + seq![
            "Start daemon: "@ + (if s.start_daemon {
                "yes"@
            } else {
                "no"@
            }),
            "Enter confirm · d toggle daemon · Esc cancel"@,
        ],
        _ => seq![
            field_label(s.step) + ": "@ + s.active_text(),
            "Type to edit · Enter next · Backspace delete · Alt+Left back · Esc cancel"@,
        ],
    }
}

/// The lines of the wizard's screen: the title, the step, and the error of
/// the last attempt to finish, if any.
pub open spec fn wizard_lines(s: WizardState) -> Seq<Seq<char>> {
    let body = seq![wizard_title(s.step)] + step_body(s);
    match s.error {
        Some(e) => body.push("Error: "@ + err_text(e@)),
        None => body,
    }
}

fn type_choice_text(i: usize, chosen: usize) -> (r: String)
    requires
        i <= 2,
    ensures
        r@ == type_choice(i as int, chosen as int),
{
    let label = if i == 0 {
        "npm package"
    } else if i == 1 {
        "composer package"
    } else {
        "custom path"
    };
    concat2(if i == chosen { "> " } else { "  " }, label)
}

impl WizardState {
    /// The lines of the wizard's screen.
    pub fn screen_lines(&self) -> (r: Vec<String>)
        ensures
            str_views(r@) == wizard_lines(*self),
    {
        let mut r: Vec<String> = Vec::new();
        let mut t: Vec<char> = Vec::new();
        push_str(&mut t, " linkd wizard — step ");
        push_decimal(&mut t, self.step_index() as u64);
        push_str(&mut t, "/5 ");
        r.push(from_chars(&t));
        match self.step {
            WizardStep::LinkType => {
                r.push(type_choice_text(0, self.link_type));
                r.push(type_choice_text(1, self.link_type));
                r.push(type_choice_text(2, self.link_type));
                r.push("↑/↓ select · Enter next · Esc cancel".to_owned());
            },
            WizardStep::Confirm => {
                r.push(concat2("Source:   ", self.source.as_str()));
                r.push(concat2("Consumer: ", self.consumer.as_str()));
                if self.link_type == CUSTOM_LINK_TYPE {
                    r.push(concat2("Target:   ", self.target.as_str()));
                }
                r.push(concat2("Start daemon: ", if self.start_daemon { "yes" } else { "no" }));
                r.push("Enter confirm · d toggle daemon · Esc cancel".to_owned());
            },
            _ => {
                let label = match self.step {
                    WizardStep::Source => "Source",
                    WizardStep::Consumer => "Consumer",
                    _ => "Target",
                };
                let mut v: Vec<char> = Vec::new();
                push_str(&mut v, label);
                push_str(&mut v, ": ");
                push_str(&mut v, self.active_field());
                r.push(from_chars(&v));
                r.push("Type to edit · Enter next · Backspace delete · Alt+Left back · Esc cancel".to_owned());
            },
        }
        match &self.error {
            Some(e) => {
                let m = error_message(e);
                r.push(concat2("Error: ", m.as_str()));
            },
            None => {},
        }
        assert(str_views(r@) =~= wizard_lines(*self));
        r
    }
}

} // verus!
