//! The data that links are made of: ecosystems, sync targets and errors.

use vstd::prelude::*;
use crate::fs::str_views;
use crate::manifest::opt_str;

verus! {

/// A package ecosystem that linkd knows how to sync.
#[derive(Clone, Copy, Debug, PartialEq, Eq, Structural)]
pub enum Ecosystem {
    Npm,
    Composer,
    Python,
    Go,
    Cargo,
    Jvm,
    Dart,
    Dotnet,
    Ruby,
    Swift,
    Elixir,
    Custom,
}

/// How a sync target is kept apart from shared package stores.
#[derive(Clone, Copy, Debug, PartialEq, Eq, Structural)]
pub enum IsolationMode {
    /// The target lies in the consumer project itself.
    ProjectLocal,
    /// The target is a private copy that shadows a shared store entry.
    Shadow,
}

/// How a link was set up.
#[derive(Clone, Copy, Debug, PartialEq, Eq, Structural)]
pub enum LinkMode {
    /// Into the location that the consumer's package manager uses.
    PackageManager,
    /// Into a directory that the user chose.
    CustomPath,
}

/// The sync state of a link.
#[derive(Clone, Copy, Debug, PartialEq, Eq, Structural)]
pub enum LinkSyncStatus {
    Pending,
    Syncing,
    Synced,
    Error,
    Paused,
}

/// A registered link, as far as link decisions read it.
#[derive(Debug)]
pub struct LinkEntry {
    /// The registry's id of the link, which tells apart the links of one
    /// package into several consumers.
    pub id: String,
    pub package_name: String,
    pub source_path: String,
    pub consumer_root: String,
    pub sync_target: String,
    pub ecosystem: Ecosystem,
    pub link_mode: LinkMode,
    /// The target that the user chose, for a link of mode `CustomPath`.
    pub custom_target: Option<String>,
    pub isolation_mode: IsolationMode,
    /// How the files are synced (the name of the registry's sync strategy,
    /// such as `Copy`).
    pub strategy: String,
    pub last_sync_status: LinkSyncStatus,
    /// When the last sync finished, as the daemon reported it.
    pub last_sync_at: Option<String>,
    pub file_count: u32,
}

/// A link as a value of the specification.
pub struct LinkEntryView {
    pub id: Seq<char>,
    pub package_name: Seq<char>,
    pub source_path: Seq<char>,
    pub consumer_root: Seq<char>,
    pub sync_target: Seq<char>,
    pub ecosystem: Ecosystem,
    pub link_mode: LinkMode,
    pub custom_target: Option<Seq<char>>,
    pub isolation_mode: IsolationMode,
    pub strategy: Seq<char>,
    pub last_sync_status: LinkSyncStatus,
    pub last_sync_at: Option<Seq<char>>,
    pub file_count: u32,
}

impl View for LinkEntry {
    type V = LinkEntryView;

    open spec fn view(&self) -> LinkEntryView {
        LinkEntryView {
            id: self.id@,
            package_name: self.package_name@,
            source_path: self.source_path@,
            consumer_root: self.consumer_root@,
            sync_target: self.sync_target@,
            ecosystem: self.ecosystem,
            link_mode: self.link_mode,
            custom_target: opt_str(self.custom_target),
            isolation_mode: self.isolation_mode,
            strategy: self.strategy@,
            last_sync_status: self.last_sync_status,
            last_sync_at: opt_str(self.last_sync_at),
            file_count: self.file_count,
        }
    }
}

/// Where the files of a package are written in a consumer project.
#[derive(Debug)]
pub struct ResolvedSyncTarget {
    /// The path where the package manager expects the package.
    pub logical_target: String,
    /// The path that is actually written.
    pub sync_target: String,
    pub isolation_mode: IsolationMode,
    /// Roots that must never be written (shared package stores).
    pub forbidden_roots: Vec<String>,
}

/// Errors of link resolution.
#[derive(Debug)]
pub enum LinkdError {
    /// A manifest or package could not be found; the text says which.
    PackageNotFound(String),
    /// An npm package could not be read.
    NpmPackFailed(String),
    /// A write would have gone into the pnpm global store.
    PnpmGlobalStoreForbidden(String),
    /// Reading a file failed.
    Io { path: String, message: String },
    /// Any other failure, with its message.
    Other(String),
}

/// A result of this library.
pub type LinkdResult<T> = Result<T, LinkdError>;

/// A sync target as a value of the specification.
pub struct TargetView {
    pub logical: Seq<char>,
    pub sync: Seq<char>,
    pub mode: IsolationMode,
    pub forbidden: Seq<Seq<char>>,
}

impl View for ResolvedSyncTarget {
    type V = TargetView;

    open spec fn view(&self) -> TargetView {
        TargetView {
            logical: self.logical_target@,
            sync: self.sync_target@,
            mode: self.isolation_mode,
            forbidden: str_views(self.forbidden_roots@),
        }
    }
}

/// The project-local target `p`: written where it is expected, with no
/// forbidden roots.
pub open spec fn local_view(p: Seq<char>) -> TargetView {
    TargetView { logical: p, sync: p, mode: IsolationMode::ProjectLocal, forbidden: seq![] }
}

/// A sync target in the consumer itself, written where it is expected.
pub open spec fn project_local(target: Seq<char>, r: ResolvedSyncTarget) -> bool {
    r@ == local_view(target)
}

/// A target result as a value of the specification.
pub open spec fn res_target(r: LinkdResult<ResolvedSyncTarget>) -> Result<TargetView, ErrView> {
    match r {
        Ok(t) => Ok(t@),
        Err(e) => Err(e@),
    }
}

/// Builds a project-local sync target.
pub fn project_local_target(target: String) -> (r: ResolvedSyncTarget)
    ensures
        project_local(target@, r),
{
    let logical = target.clone();
    let r = ResolvedSyncTarget {
        logical_target: logical,
        sync_target: target,
        isolation_mode: IsolationMode::ProjectLocal,
        forbidden_roots: Vec::new(),
    };
    assert(str_views(r.forbidden_roots@) =~= seq![]);
    r
}

/// An error as a value of the specification.
pub enum ErrView {
    PackageNotFound(Seq<char>),
    NpmPackFailed(Seq<char>),
    PnpmGlobalStoreForbidden(Seq<char>),
    Io(Seq<char>, Seq<char>),
    Other(Seq<char>),
}

impl View for LinkdError {
    type V = ErrView;

    open spec fn view(&self) -> ErrView {
        match self {
            LinkdError::PackageNotFound(m) => ErrView::PackageNotFound(m@),
            LinkdError::NpmPackFailed(m) => ErrView::NpmPackFailed(m@),
            LinkdError::PnpmGlobalStoreForbidden(m) => ErrView::PnpmGlobalStoreForbidden(m@),
            LinkdError::Io { path, message } => ErrView::Io(path@, message@),
            LinkdError::Other(m) => ErrView::Other(m@),
        }
    }
}

/// A text result as a value of the specification.
pub open spec fn res_str(r: LinkdResult<String>) -> Result<Seq<char>, ErrView> {
    match r {
        Ok(s) => Ok(s@),
        Err(e) => Err(e@),
    }
}

/// The name, or `Other(msg)` when there is none.
pub open spec fn some_or_other(name: Option<Seq<char>>, msg: Seq<char>) -> Result<Seq<char>, ErrView> {
    match name {
        Some(n) => Ok(n),
        None => Err(ErrView::Other(msg)),
    }
}

/// The name, or `PackageNotFound(msg)` when there is none.
pub open spec fn some_or_not_found(name: Option<Seq<char>>, msg: Seq<char>) -> Result<Seq<char>, ErrView> {
    match name {
        Some(n) => Ok(n),
        None => Err(ErrView::PackageNotFound(msg)),
    }
}

/// `Ok(name)`, or `Err(Other(msg))` when there is no name.
pub fn name_or_other_exec(name: Option<String>, msg: &str) -> (r: LinkdResult<String>)
    ensures
        res_str(r) == some_or_other(match name { Some(n) => Some(n@), None => None }, msg@),
{
    match name {
        Some(n) => Ok(n),
        None => Err(LinkdError::Other(msg.to_owned())),
    }
}

/// `Ok(name)`, or `Err(PackageNotFound(msg))` when there is no name.
pub fn name_or_not_found_exec(name: Option<String>, msg: &str) -> (r: LinkdResult<String>)
    ensures
        res_str(r) == some_or_not_found(match name { Some(n) => Some(n@), None => None }, msg@),
{
    match name {
        Some(n) => Ok(n),
        None => Err(LinkdError::PackageNotFound(msg.to_owned())),
    }
}

} // verus!
